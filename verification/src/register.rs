//! BM1397 Registers.
//!
//! A register is 32 bits wide and reached by its one-byte address. Each has a
//! type of its own that wraps the raw value; the types that have no accessor
//! yet still name the offsets and masks of their fields.
use crate::bits::{
    field_u32, flag_u32, get_field_u32, lemma_flag_u32, set_field_u32, with_field_u32,
    with_flag_u32, without_flag_u32,
};
use crate::core_register::{
    ClockDelayCtrl, CoreEnable, CoreError, CoreRegister, CoreRegisters, HashClockCounter,
    HashClockCtrl, ProcessMonitorCtrl, ProcessMonitorData, SweepClockCtrl,
};
use crate::frequency::{
    checked_pll_output_hz, hertz_from_raw, hertz_raw, hertz_to_raw, pll_output_defined,
    pll_output_hz, spec_pll_output_hz,
};
use crate::specifier::{BaudrateClockSelect, ClockSelect};
use crate::Error;
use fugit::HertzU32;
use vstd::arithmetic::power2::lemma2_to64;
use vstd::prelude::*;

verus! {

/// What every register has: an address and a raw value.
pub trait Register: Sized {
    /// The address of the register.
    spec fn spec_addr(&self) -> u8;

    /// The raw value of the register.
    spec fn spec_val(&self) -> u32;

    /// The register of this type that holds `raw`.
    spec fn spec_from_raw(raw: u32) -> Self;

    /// The address of the register.
    fn addr(&self) -> (addr: u8)
        ensures
            addr == self.spec_addr(),
    ;

    /// The raw value of the register.
    fn val(&self) -> (val: u32)
        ensures
            val == self.spec_val(),
    ;

    /// Every raw value is the value of the register decoded from it, and a
    /// register is what its raw value decodes to.
    proof fn lemma_raw_round_trip(raw: u32, reg: Self)
        ensures
            Self::spec_from_raw(raw).spec_val() == raw,
            Self::spec_from_raw(reg.spec_val()) == reg,
    ;
}

/// The mask of the select field of the clock `clock` in a clock order control
/// register.
pub open spec fn spec_clock_select_mask(clock: u8) -> u32 {
    0xFu32 << ((clock * 4) as u8)
}

/// The select field of the clock `clock` in the raw value of a clock order
/// control register.
pub open spec fn spec_clock_select_raw(raw: u32, clock: u8) -> u8 {
    field_u32(raw, spec_clock_select_mask(clock), (clock * 4) as u8) as u8
}

/// `raw` with `sel` in the select field of the clock `clock`.
pub open spec fn spec_with_clock_select_raw(raw: u32, clock: u8, sel: u8) -> u32 {
    with_field_u32(raw, spec_clock_select_mask(clock), (clock * 4) as u8, sel as u32)
}

/// Reads the select field of the clock `clock`.
fn clock_select_raw(raw: u32, clock: u8) -> (sel: u8)
    requires
        clock <= 7,
    ensures
        sel == spec_clock_select_raw(raw, clock),
        sel <= 0xf,
{
    let offset: u8 = clock * 4;
    let mask: u32 = 0xFu32 << offset;
    let value = get_field_u32(raw, mask, offset);
    assert(value <= 0xf) by (bit_vector)
        requires
            value == (raw & (0xFu32 << offset)) >> (offset as u32),
            offset <= 28,
    ;
    value as u8
}

/// Writes `sel` into the select field of the clock `clock`.
fn with_clock_select_raw(raw: u32, clock: u8, sel: u8) -> (updated: u32)
    requires
        clock <= 7,
        sel <= 0xf,
    ensures
        updated == spec_with_clock_select_raw(raw, clock, sel),
        spec_clock_select_raw(updated, clock) == sel,
        updated & !spec_clock_select_mask(clock) == raw & !spec_clock_select_mask(clock),
{
    let offset: u8 = clock * 4;
    let mask: u32 = 0xFu32 << offset;
    let updated = set_field_u32(raw, mask, offset, sel as u32);
    assert(((updated & (0xFu32 << offset)) >> (offset as u32)) as u8 == sel) by (bit_vector)
        requires
            updated == (raw & !(0xFu32 << offset)) | (((sel as u32) << (offset as u32)) & (0xFu32
                << offset)),
            offset <= 28,
            sel <= 0xf,
    ;
    updated
}

/// # Chip Address register
///
/// Used to identify chip.
#[derive(Debug, Copy, Clone, Eq, PartialEq, Hash, Structural)]
pub struct ChipAddress(u32);

impl View for ChipAddress {
    type V = u32;

    closed spec fn view(&self) -> u32 {
        self.0
    }
}

impl From<u32> for ChipAddress {
    fn from(val: u32) -> (reg: Self)
        ensures
            reg@ == val,
    {
        Self(val)
    }
}

impl vstd::std_specs::convert::FromSpecImpl<u32> for ChipAddress {
    open spec fn obeys_from_spec() -> bool {
        true
    }

    open spec fn from_spec(val: u32) -> Self {
        Self::spec_from_raw(val)
    }
}

impl From<ChipAddress> for u32 {
    fn from(val: ChipAddress) -> (raw: u32) {
        val.0
    }
}

impl vstd::std_specs::convert::FromSpecImpl<ChipAddress> for u32 {
    open spec fn obeys_from_spec() -> bool {
        true
    }

    open spec fn from_spec(val: ChipAddress) -> u32 {
        val@
    }
}

impl Default for ChipAddress {
    fn default() -> (reg: Self)
        ensures
            reg@ == Self::RESET,
    {
        Self(Self::RESET)
    }
}

impl Register for ChipAddress {
    open spec fn spec_addr(&self) -> u8 {
        Self::ADDR
    }

    open spec fn spec_val(&self) -> u32 {
        self@
    }

    closed spec fn spec_from_raw(raw: u32) -> Self {
        Self(raw)
    }

    fn addr(&self) -> (addr: u8) {
        Self::ADDR
    }

    fn val(&self) -> (val: u32) {
        self.0
    }

    proof fn lemma_raw_round_trip(raw: u32, reg: Self) {
    }
}

impl ChipAddress {
    /// ## Chip Address register address.
    pub const ADDR: u8 = 0x00;

    /// ## Chip Address register reset value.
    pub const RESET: u32 = 0x1397_1800;

    /// ## Bit offset for the `CHIP_ID` field.
    pub const CHIP_ID_OFFSET: u8 = 16;

    /// ## Bit offset for the `CORE_NUM` field.
    pub const CORE_NUM_OFFSET: u8 = 8;

    /// ## Bit offset for the `ADDR` field.
    pub const ADDR_OFFSET: u8 = 0;

    /// ## Bit mask for the `CHIP_ID` field.
    pub const CHIP_ID_MASK: u32 = 0xffff_0000;

    /// ## Bit mask for the `CORE_NUM` field.
    pub const CORE_NUM_MASK: u32 = 0x0000_ff00;

    /// ## Bit mask for the `ADDR` field.
    pub const ADDR_MASK: u32 = 0x0000_00ff;

    /// ## Get the chip identifier.
    ///
    /// This returns an `u16` with the chip identifier.
    pub fn chip_id(&self) -> (value: u16)
        ensures
            value == field_u32(self@, Self::CHIP_ID_MASK, Self::CHIP_ID_OFFSET),
    {
        proof {
            lemma2_to64();
        }
        get_field_u32(self.0, Self::CHIP_ID_MASK, Self::CHIP_ID_OFFSET) as u16
    }

    /// ## Get the number of internal cores.
    ///
    /// This returns an `u8` with the number of internal cores.
    pub fn core_num(&self) -> (value: u8)
        ensures
            value == field_u32(self@, Self::CORE_NUM_MASK, Self::CORE_NUM_OFFSET),
    {
        proof {
            lemma2_to64();
        }
        get_field_u32(self.0, Self::CORE_NUM_MASK, Self::CORE_NUM_OFFSET) as u8
    }

    /// ## Get the chip address on the chain.
    ///
    /// This returns an `u8` with the chip address on the chain.
    pub fn chip_addr(&self) -> (value: u8)
        ensures
            value == field_u32(self@, Self::ADDR_MASK, Self::ADDR_OFFSET),
    {
        proof {
            lemma2_to64();
        }
        get_field_u32(self.0, Self::ADDR_MASK, Self::ADDR_OFFSET) as u8
    }
}

/// # Hash Rate register
#[derive(Debug, Copy, Clone, Eq, PartialEq, Hash, Structural)]
pub struct HashRate(u32);

impl View for HashRate {
    type V = u32;

    closed spec fn view(&self) -> u32 {
        self.0
    }
}

impl From<u32> for HashRate {
    fn from(val: u32) -> (reg: Self)
        ensures
            reg@ == val,
    {
        Self(val)
    }
}

impl vstd::std_specs::convert::FromSpecImpl<u32> for HashRate {
    open spec fn obeys_from_spec() -> bool {
        true
    }

    open spec fn from_spec(val: u32) -> Self {
        Self::spec_from_raw(val)
    }
}

impl From<HashRate> for u32 {
    fn from(val: HashRate) -> (raw: u32) {
        val.0
    }
}

impl vstd::std_specs::convert::FromSpecImpl<HashRate> for u32 {
    open spec fn obeys_from_spec() -> bool {
        true
    }

    open spec fn from_spec(val: HashRate) -> u32 {
        val@
    }
}

impl Default for HashRate {
    fn default() -> (reg: Self)
        ensures
            reg@ == Self::RESET,
    {
        Self(Self::RESET)
    }
}

impl Register for HashRate {
    open spec fn spec_addr(&self) -> u8 {
        Self::ADDR
    }

    open spec fn spec_val(&self) -> u32 {
        self@
    }

    closed spec fn spec_from_raw(raw: u32) -> Self {
        Self(raw)
    }

    fn addr(&self) -> (addr: u8) {
        Self::ADDR
    }

    fn val(&self) -> (val: u32) {
        self.0
    }

    proof fn lemma_raw_round_trip(raw: u32, reg: Self) {
    }
}

impl HashRate {
    /// ## Hash Rate register address.
    pub const ADDR: u8 = 0x04;

    /// ## Hash Rate register reset value.
    pub const RESET: u32 = 0x8000_0000;

    /// ## Bit offset for the `LONG` field.
    pub const LONG_OFFSET: u8 = 31;

    /// ## Bit offset for the `HASHRATE` field.
    pub const HASHRATE_OFFSET: u8 = 0;

    /// ## Bit mask for the `LONG` field.
    pub const LONG_MASK: u32 = 0x8000_0000;

    /// ## Bit mask for the `HASHRATE` field.
    pub const HASHRATE_MASK: u32 = 0x7fff_ffff;
}

/// # PLL0 Parameter register
///
/// Used to set PLL0 frequency.
#[derive(Debug, Copy, Clone, Eq, PartialEq, Hash, Structural)]
pub struct PLL0Parameter(u32);

impl View for PLL0Parameter {
    type V = u32;

    closed spec fn view(&self) -> u32 {
        self.0
    }
}

impl From<u32> for PLL0Parameter {
    fn from(val: u32) -> (reg: Self)
        ensures
            reg@ == val,
    {
        Self(val)
    }
}

impl vstd::std_specs::convert::FromSpecImpl<u32> for PLL0Parameter {
    open spec fn obeys_from_spec() -> bool {
        true
    }

    open spec fn from_spec(val: u32) -> Self {
        Self::spec_from_raw(val)
    }
}

impl From<PLL0Parameter> for u32 {
    fn from(val: PLL0Parameter) -> (raw: u32) {
        val.0
    }
}

impl vstd::std_specs::convert::FromSpecImpl<PLL0Parameter> for u32 {
    open spec fn obeys_from_spec() -> bool {
        true
    }

    open spec fn from_spec(val: PLL0Parameter) -> u32 {
        val@
    }
}

impl Default for PLL0Parameter {
    fn default() -> (reg: Self)
        ensures
            reg@ == Self::RESET,
    {
        Self(Self::RESET)
    }
}

impl Register for PLL0Parameter {
    open spec fn spec_addr(&self) -> u8 {
        Self::ADDR
    }

    open spec fn spec_val(&self) -> u32 {
        self@
    }

    closed spec fn spec_from_raw(raw: u32) -> Self {
        Self(raw)
    }

    fn addr(&self) -> (addr: u8) {
        Self::ADDR
    }

    fn val(&self) -> (val: u32) {
        self.0
    }

    proof fn lemma_raw_round_trip(raw: u32, reg: Self) {
    }
}

impl PLL0Parameter {
    /// ## PLL0 Parameter register address.
    pub const ADDR: u8 = 0x08;

    /// ## PLL0 Parameter register reset value.
    pub const RESET: u32 = 0xc060_0161;

    /// ## Bit offset for the `LOCKED` field.
    pub const LOCKED_OFFSET: u8 = 31;

    /// ## Bit offset for the `PLLEN` field.
    pub const PLLEN_OFFSET: u8 = 30;

    /// ## Bit offset for the `FBDIV` field.
    pub const FBDIV_OFFSET: u8 = 16;

    /// ## Bit offset for the `REFDIV` field.
    pub const REFDIV_OFFSET: u8 = 8;

    /// ## Bit offset for the `POSTDIV1` field.
    pub const POSTDIV1_OFFSET: u8 = 4;

    /// ## Bit offset for the `POSTDIV2` field.
    pub const POSTDIV2_OFFSET: u8 = 0;

    /// ## Bit mask for the `LOCKED` field.
    pub const LOCKED_MASK: u32 = 0x8000_0000;

    /// ## Bit mask for the `PLLEN` field.
    pub const PLLEN_MASK: u32 = 0x4000_0000;

    /// ## Bit mask for the `FBDIV` field.
    pub const FBDIV_MASK: u32 = 0x0fff_0000;

    /// ## Bit mask for the `REFDIV` field.
    pub const REFDIV_MASK: u32 = 0x0000_3f00;

    /// ## Bit mask for the `POSTDIV1` field.
    pub const POSTDIV1_MASK: u32 = 0x0000_0070;

    /// ## Bit mask for the `POSTDIV2` field.
    pub const POSTDIV2_MASK: u32 = 0x0000_0007;

    /// ## Get the PLL0 locked state.
    ///
    /// This returns an `bool` with the locked state.
    pub fn locked(&self) -> (on: bool)
        ensures
            on == flag_u32(self@, Self::LOCKED_MASK),
    {
        self.0 & Self::LOCKED_MASK == Self::LOCKED_MASK
    }

    /// ## Set the PLL0 locked state.
    #[must_use]
    pub fn lock(self) -> (reg: Self)
        ensures
            reg@ == with_flag_u32(self@, Self::LOCKED_MASK),
            flag_u32(reg@, Self::LOCKED_MASK),
            reg@ & !Self::LOCKED_MASK == self@ & !Self::LOCKED_MASK,
    {
        proof {
            lemma_flag_u32(self.0, Self::LOCKED_MASK);
        }
        Self(self.0 | Self::LOCKED_MASK)
    }

    /// ## Clear the PLL0 locked state.
    #[must_use]
    pub fn unlock(self) -> (reg: Self)
        ensures
            reg@ == without_flag_u32(self@, Self::LOCKED_MASK),
            !flag_u32(reg@, Self::LOCKED_MASK),
            reg@ & !Self::LOCKED_MASK == self@ & !Self::LOCKED_MASK,
    {
        proof {
            lemma_flag_u32(self.0, Self::LOCKED_MASK);
        }
        Self(self.0 & !Self::LOCKED_MASK)
    }

    /// ## Get the PLL0 enabled state.
    ///
    /// This returns an `bool` with the PLL enabled state.
    pub fn enabled(&self) -> (on: bool)
        ensures
            on == flag_u32(self@, Self::PLLEN_MASK),
    {
        self.0 & Self::PLLEN_MASK == Self::PLLEN_MASK
    }

    /// ## Enable the PLL0.
    #[must_use]
    pub fn enable(self) -> (reg: Self)
        ensures
            reg@ == with_flag_u32(self@, Self::PLLEN_MASK),
            flag_u32(reg@, Self::PLLEN_MASK),
            reg@ & !Self::PLLEN_MASK == self@ & !Self::PLLEN_MASK,
    {
        proof {
            lemma_flag_u32(self.0, Self::PLLEN_MASK);
        }
        Self(self.0 | Self::PLLEN_MASK)
    }

    /// ## Disable the PLL0.
    #[must_use]
    pub fn disable(self) -> (reg: Self)
        ensures
            reg@ == without_flag_u32(self@, Self::PLLEN_MASK),
            !flag_u32(reg@, Self::PLLEN_MASK),
            reg@ & !Self::PLLEN_MASK == self@ & !Self::PLLEN_MASK,
    {
        proof {
            lemma_flag_u32(self.0, Self::PLLEN_MASK);
        }
        Self(self.0 & !Self::PLLEN_MASK)
    }

    /// ## Get the PLL0 FB Divider.
    ///
    /// This returns an `u16` with the PLL0 FB Divider.
    pub fn fbdiv(&self) -> (value: u16)
        ensures
            value == field_u32(self@, Self::FBDIV_MASK, Self::FBDIV_OFFSET),
            value <= 0xfff,
    {
        proof {
            lemma2_to64();
        }
        get_field_u32(self.0, Self::FBDIV_MASK, Self::FBDIV_OFFSET) as u16
    }

    /// ## Set the PLL0 FB Divider.
    ///
    /// A value wider than the field is truncated to it.
    #[must_use]
    pub fn set_fbdiv(self, fbdiv: u16) -> (reg: Self)
        ensures
            reg@ == with_field_u32(self@, Self::FBDIV_MASK, Self::FBDIV_OFFSET, fbdiv as u32),
            field_u32(reg@, Self::FBDIV_MASK, Self::FBDIV_OFFSET) == (fbdiv as u32) & 0xfff,
            reg@ & !Self::FBDIV_MASK == self@ & !Self::FBDIV_MASK,
    {
        proof {
            lemma2_to64();
        }
        Self(set_field_u32(self.0, Self::FBDIV_MASK, Self::FBDIV_OFFSET, fbdiv as u32))
    }

    /// ## Get the PLL0 REF Divider.
    ///
    /// This returns an `u8` with the PLL0 REF Divider.
    pub fn refdiv(&self) -> (value: u8)
        ensures
            value == field_u32(self@, Self::REFDIV_MASK, Self::REFDIV_OFFSET),
            value <= 0x3f,
    {
        proof {
            lemma2_to64();
        }
        get_field_u32(self.0, Self::REFDIV_MASK, Self::REFDIV_OFFSET) as u8
    }

    /// ## Set the PLL0 REF Divider.
    ///
    /// A value wider than the field is truncated to it.
    #[must_use]
    pub fn set_refdiv(self, refdiv: u8) -> (reg: Self)
        ensures
            reg@ == with_field_u32(self@, Self::REFDIV_MASK, Self::REFDIV_OFFSET, refdiv as u32),
            field_u32(reg@, Self::REFDIV_MASK, Self::REFDIV_OFFSET) == (refdiv as u32) & 0x3f,
            reg@ & !Self::REFDIV_MASK == self@ & !Self::REFDIV_MASK,
    {
        proof {
            lemma2_to64();
        }
        Self(set_field_u32(self.0, Self::REFDIV_MASK, Self::REFDIV_OFFSET, refdiv as u32))
    }

    /// ## Get the PLL0 POST Divider 1.
    ///
    /// This returns an `u8` with the PLL0 POST Divider 1.
    pub fn postdiv1(&self) -> (value: u8)
        ensures
            value == field_u32(self@, Self::POSTDIV1_MASK, Self::POSTDIV1_OFFSET),
            value <= 0x7,
    {
        proof {
            lemma2_to64();
        }
        get_field_u32(self.0, Self::POSTDIV1_MASK, Self::POSTDIV1_OFFSET) as u8
    }

    /// ## Set the PLL0 POST Divider 1.
    ///
    /// A value wider than the field is truncated to it.
    #[must_use]
    pub fn set_postdiv1(self, postdiv1: u8) -> (reg: Self)
        ensures
            reg@ == with_field_u32(self@, Self::POSTDIV1_MASK, Self::POSTDIV1_OFFSET, postdiv1 as u32),
            field_u32(reg@, Self::POSTDIV1_MASK, Self::POSTDIV1_OFFSET) == (postdiv1 as u32) & 0x7,
            reg@ & !Self::POSTDIV1_MASK == self@ & !Self::POSTDIV1_MASK,
    {
        proof {
            lemma2_to64();
        }
        Self(set_field_u32(self.0, Self::POSTDIV1_MASK, Self::POSTDIV1_OFFSET, postdiv1 as u32))
    }

    /// ## Get the PLL0 POST Divider 2.
    ///
    /// This returns an `u8` with the PLL0 POST Divider 2.
    pub fn postdiv2(&self) -> (value: u8)
        ensures
            value == field_u32(self@, Self::POSTDIV2_MASK, Self::POSTDIV2_OFFSET),
            value <= 0x7,
    {
        proof {
            lemma2_to64();
        }
        get_field_u32(self.0, Self::POSTDIV2_MASK, Self::POSTDIV2_OFFSET) as u8
    }

    /// ## Set the PLL0 POST Divider 2.
    ///
    /// A value wider than the field is truncated to it.
    #[must_use]
    pub fn set_postdiv2(self, postdiv2: u8) -> (reg: Self)
        ensures
            reg@ == with_field_u32(self@, Self::POSTDIV2_MASK, Self::POSTDIV2_OFFSET, postdiv2 as u32),
            field_u32(reg@, Self::POSTDIV2_MASK, Self::POSTDIV2_OFFSET) == (postdiv2 as u32) & 0x7,
            reg@ & !Self::POSTDIV2_MASK == self@ & !Self::POSTDIV2_MASK,
    {
        proof {
            lemma2_to64();
        }
        Self(set_field_u32(self.0, Self::POSTDIV2_MASK, Self::POSTDIV2_OFFSET, postdiv2 as u32))
    }

    /// Whether the output frequency of the PLL can be computed from an input
    /// clock of `clki_hz` hertz: no divider of the register is zero, and the
    /// input clock times the feedback divider fits in 32 bits.
    pub open spec fn spec_frequency_defined(&self, clki_hz: u32) -> bool {
        pll_output_defined(
            clki_hz,
            field_u32(self@, Self::FBDIV_MASK, Self::FBDIV_OFFSET) as u16,
            field_u32(self@, Self::REFDIV_MASK, Self::REFDIV_OFFSET) as u8,
            field_u32(self@, Self::POSTDIV1_MASK, Self::POSTDIV1_OFFSET) as u8,
            field_u32(self@, Self::POSTDIV2_MASK, Self::POSTDIV2_OFFSET) as u8,
        )
    }

    /// The output frequency of the PLL in hertz, for an input clock of
    /// `clki_hz` hertz.
    pub open spec fn spec_frequency_hz(&self, clki_hz: u32) -> int {
        spec_pll_output_hz(
            clki_hz,
            field_u32(self@, Self::FBDIV_MASK, Self::FBDIV_OFFSET) as u16,
            field_u32(self@, Self::REFDIV_MASK, Self::REFDIV_OFFSET) as u8,
            field_u32(self@, Self::POSTDIV1_MASK, Self::POSTDIV1_OFFSET) as u8,
            field_u32(self@, Self::POSTDIV2_MASK, Self::POSTDIV2_OFFSET) as u8,
        )
    }

    /// ## Get the PLL0 Frequency.
    ///
    /// This returns the output frequency of the PLL for the input clock
    /// `clki_freq`: the input clock times the FB divider, over the product of
    /// the REF divider and the two POST dividers, rounded down.
    pub fn frequency(&self, clki_freq: HertzU32) -> (freq: HertzU32)
        requires
            self.spec_frequency_defined(hertz_raw(clki_freq)),
        ensures
            hertz_raw(freq) == self.spec_frequency_hz(hertz_raw(clki_freq)),
    {
        let clki_hz = hertz_to_raw(&clki_freq);
        hertz_from_raw(
            pll_output_hz(clki_hz, self.fbdiv(), self.refdiv(), self.postdiv1(), self.postdiv2()),
        )
    }

    /// ## Get the PLL0 Frequency, where it can be computed.
    ///
    /// This returns `None` where a divider of the register is zero or the
    /// input clock times the FB divider does not fit in 32 bits, and the
    /// frequency that `frequency` returns otherwise.
    pub fn checked_frequency(&self, clki_freq: HertzU32) -> (freq: Option<HertzU32>)
        ensures
            freq is Some <==> self.spec_frequency_defined(hertz_raw(clki_freq)),
            freq matches Some(f) ==> hertz_raw(f) == self.spec_frequency_hz(hertz_raw(clki_freq)),
    {
        let clki_hz = hertz_to_raw(&clki_freq);
        match checked_pll_output_hz(
            clki_hz,
            self.fbdiv(),
            self.refdiv(),
            self.postdiv1(),
            self.postdiv2(),
        ) {
            Some(_) => Some(self.frequency(clki_freq)),
            None => None,
        }
    }
}

/// # Chip Nonce Offset register
#[derive(Debug, Copy, Clone, Eq, PartialEq, Hash, Structural)]
pub struct ChipNonceOffset(u32);

impl View for ChipNonceOffset {
    type V = u32;

    closed spec fn view(&self) -> u32 {
        self.0
    }
}

impl From<u32> for ChipNonceOffset {
    fn from(val: u32) -> (reg: Self)
        ensures
            reg@ == val,
    {
        Self(val)
    }
}

impl vstd::std_specs::convert::FromSpecImpl<u32> for ChipNonceOffset {
    open spec fn obeys_from_spec() -> bool {
        true
    }

    open spec fn from_spec(val: u32) -> Self {
        Self::spec_from_raw(val)
    }
}

impl From<ChipNonceOffset> for u32 {
    fn from(val: ChipNonceOffset) -> (raw: u32) {
        val.0
    }
}

impl vstd::std_specs::convert::FromSpecImpl<ChipNonceOffset> for u32 {
    open spec fn obeys_from_spec() -> bool {
        true
    }

    open spec fn from_spec(val: ChipNonceOffset) -> u32 {
        val@
    }
}

impl Default for ChipNonceOffset {
    fn default() -> (reg: Self)
        ensures
            reg@ == Self::RESET,
    {
        Self(Self::RESET)
    }
}

impl Register for ChipNonceOffset {
    open spec fn spec_addr(&self) -> u8 {
        Self::ADDR
    }

    open spec fn spec_val(&self) -> u32 {
        self@
    }

    closed spec fn spec_from_raw(raw: u32) -> Self {
        Self(raw)
    }

    fn addr(&self) -> (addr: u8) {
        Self::ADDR
    }

    fn val(&self) -> (val: u32) {
        self.0
    }

    proof fn lemma_raw_round_trip(raw: u32, reg: Self) {
    }
}

impl ChipNonceOffset {
    /// ## Chip Nonce Offset register address.
    pub const ADDR: u8 = 0x0C;

    /// ## Chip Nonce Offset register reset value.
    pub const RESET: u32 = 0x0000_0000;

    /// ## Bit offset for the `CNOV` field.
    pub const CNOV_OFFSET: u8 = 31;

    /// ## Bit offset for the `CNO` field.
    pub const CNO_OFFSET: u8 = 0;

    /// ## Bit mask for the `CNOV` field.
    pub const CNOV_MASK: u32 = 0x8000_0000;

    /// ## Bit mask for the `CNO` field.
    pub const CNO_MASK: u32 = 0x0000_0007;
}

/// # Hash Counting Number register
#[derive(Debug, Copy, Clone, Eq, PartialEq, Hash, Structural)]
pub struct HashCountingNumber(u32);

impl View for HashCountingNumber {
    type V = u32;

    closed spec fn view(&self) -> u32 {
        self.0
    }
}

impl From<u32> for HashCountingNumber {
    fn from(val: u32) -> (reg: Self)
        ensures
            reg@ == val,
    {
        Self(val)
    }
}

impl vstd::std_specs::convert::FromSpecImpl<u32> for HashCountingNumber {
    open spec fn obeys_from_spec() -> bool {
        true
    }

    open spec fn from_spec(val: u32) -> Self {
        Self::spec_from_raw(val)
    }
}

impl From<HashCountingNumber> for u32 {
    fn from(val: HashCountingNumber) -> (raw: u32) {
        val.0
    }
}

impl vstd::std_specs::convert::FromSpecImpl<HashCountingNumber> for u32 {
    open spec fn obeys_from_spec() -> bool {
        true
    }

    open spec fn from_spec(val: HashCountingNumber) -> u32 {
        val@
    }
}

impl Default for HashCountingNumber {
    fn default() -> (reg: Self)
        ensures
            reg@ == Self::RESET,
    {
        Self(Self::RESET)
    }
}

impl Register for HashCountingNumber {
    open spec fn spec_addr(&self) -> u8 {
        Self::ADDR
    }

    open spec fn spec_val(&self) -> u32 {
        self@
    }

    closed spec fn spec_from_raw(raw: u32) -> Self {
        Self(raw)
    }

    fn addr(&self) -> (addr: u8) {
        Self::ADDR
    }

    fn val(&self) -> (val: u32) {
        self.0
    }

    proof fn lemma_raw_round_trip(raw: u32, reg: Self) {
    }
}

impl HashCountingNumber {
    /// ## Hash Counting Number register address.
    pub const ADDR: u8 = 0x10;

    /// ## Hash Counting Number register reset value.
    pub const RESET: u32 = 0x0000_0000;

    /// ## Bit offset for the `HCN` field.
    pub const HCN_OFFSET: u8 = 0;

    /// ## Bit mask for the `HCN` field.
    pub const HCN_MASK: u32 = 0xffff_ffff;
}

/// # Ticket Mask register
#[derive(Debug, Copy, Clone, Eq, PartialEq, Hash, Structural)]
pub struct TicketMask(u32);

impl View for TicketMask {
    type V = u32;

    closed spec fn view(&self) -> u32 {
        self.0
    }
}

impl From<u32> for TicketMask {
    fn from(val: u32) -> (reg: Self)
        ensures
            reg@ == val,
    {
        Self(val)
    }
}

impl vstd::std_specs::convert::FromSpecImpl<u32> for TicketMask {
    open spec fn obeys_from_spec() -> bool {
        true
    }

    open spec fn from_spec(val: u32) -> Self {
        Self::spec_from_raw(val)
    }
}

impl From<TicketMask> for u32 {
    fn from(val: TicketMask) -> (raw: u32) {
        val.0
    }
}

impl vstd::std_specs::convert::FromSpecImpl<TicketMask> for u32 {
    open spec fn obeys_from_spec() -> bool {
        true
    }

    open spec fn from_spec(val: TicketMask) -> u32 {
        val@
    }
}

impl Default for TicketMask {
    fn default() -> (reg: Self)
        ensures
            reg@ == Self::RESET,
    {
        Self(Self::RESET)
    }
}

impl Register for TicketMask {
    open spec fn spec_addr(&self) -> u8 {
        Self::ADDR
    }

    open spec fn spec_val(&self) -> u32 {
        self@
    }

    closed spec fn spec_from_raw(raw: u32) -> Self {
        Self(raw)
    }

    fn addr(&self) -> (addr: u8) {
        Self::ADDR
    }

    fn val(&self) -> (val: u32) {
        self.0
    }

    proof fn lemma_raw_round_trip(raw: u32, reg: Self) {
    }
}

impl TicketMask {
    /// ## Ticket Mask register address.
    pub const ADDR: u8 = 0x14;

    /// ## Ticket Mask register reset value.
    pub const RESET: u32 = 0x0000_0000;

    /// ## Bit offset for the `TM3` field.
    pub const TM3_OFFSET: u8 = 24;

    /// ## Bit offset for the `TM2` field.
    pub const TM2_OFFSET: u8 = 16;

    /// ## Bit offset for the `TM1` field.
    pub const TM1_OFFSET: u8 = 8;

    /// ## Bit offset for the `TM0` field.
    pub const TM0_OFFSET: u8 = 0;

    /// ## Bit mask for the `TM3` field.
    pub const TM3_MASK: u32 = 0xff00_0000;

    /// ## Bit mask for the `TM2` field.
    pub const TM2_MASK: u32 = 0x00ff_0000;

    /// ## Bit mask for the `TM1` field.
    pub const TM1_MASK: u32 = 0x0000_ff00;

    /// ## Bit mask for the `TM0` field.
    pub const TM0_MASK: u32 = 0x0000_00ff;
}

/// # Misc Control register
///
/// Used to control various settings.
#[derive(Debug, Copy, Clone, Eq, PartialEq, Hash, Structural)]
pub struct MiscControl(u32);

impl View for MiscControl {
    type V = u32;

    closed spec fn view(&self) -> u32 {
        self.0
    }
}

impl From<u32> for MiscControl {
    fn from(val: u32) -> (reg: Self)
        ensures
            reg@ == val,
    {
        Self(val)
    }
}

impl vstd::std_specs::convert::FromSpecImpl<u32> for MiscControl {
    open spec fn obeys_from_spec() -> bool {
        true
    }

    open spec fn from_spec(val: u32) -> Self {
        Self::spec_from_raw(val)
    }
}

impl From<MiscControl> for u32 {
    fn from(val: MiscControl) -> (raw: u32) {
        val.0
    }
}

impl vstd::std_specs::convert::FromSpecImpl<MiscControl> for u32 {
    open spec fn obeys_from_spec() -> bool {
        true
    }

    open spec fn from_spec(val: MiscControl) -> u32 {
        val@
    }
}

impl Default for MiscControl {
    fn default() -> (reg: Self)
        ensures
            reg@ == Self::RESET,
    {
        Self(Self::RESET)
    }
}

impl Register for MiscControl {
    open spec fn spec_addr(&self) -> u8 {
        Self::ADDR
    }

    open spec fn spec_val(&self) -> u32 {
        self@
    }

    closed spec fn spec_from_raw(raw: u32) -> Self {
        Self(raw)
    }

    fn addr(&self) -> (addr: u8) {
        Self::ADDR
    }

    fn val(&self) -> (val: u32) {
        self.0
    }

    proof fn lemma_raw_round_trip(raw: u32, reg: Self) {
    }
}

impl MiscControl {
    /// ## Misc Control register address.
    pub const ADDR: u8 = 0x18;

    /// ## Misc Control register reset value.
    pub const RESET: u32 = 0x0000_3a01;

    /// ## Bit offset for the `BT8D_8_5` field.
    pub const BT8D_8_5_OFFSET: u8 = 24;

    /// ## Bit offset for the `CORE_SRST` field.
    pub const CORE_SRST_OFFSET: u8 = 22;

    /// ## Bit offset for the `SPAT_NOD` field.
    pub const SPAT_NOD_OFFSET: u8 = 21;

    /// ## Bit offset for the `RVS_K0` field.
    pub const RVS_K0_OFFSET: u8 = 20;

    /// ## Bit offset for the `DSCLK_SEL` field.
    pub const DSCLK_SEL_OFFSET: u8 = 18;

    /// ## Bit offset for the `TOP_CLK_SEL` field.
    pub const TOP_CLK_SEL_OFFSET: u8 = 17;

    /// ## Bit offset for the `BCK_SEL` field.
    pub const BCK_SEL_OFFSET: u8 = 16;

    /// ## Bit offset for the `RET_ERR_NONCE` field.
    pub const RET_ERR_NONCE_OFFSET: u8 = 15;

    /// ## Bit offset for the `RFS` field.
    pub const RFS_OFFSET: u8 = 14;

    /// ## Bit offset for the `INV_CLKO` field.
    pub const INV_CLKO_OFFSET: u8 = 13;

    /// ## Bit offset for the `BT8D_4_0` field.
    pub const BT8D_4_0_OFFSET: u8 = 8;

    /// ## Bit offset for the `RET_WORK_ERR_FLAG` field.
    pub const RET_WORK_ERR_FLAG_OFFSET: u8 = 7;

    /// ## Bit offset for the `TFS` field.
    pub const TFS_OFFSET: u8 = 4;

    /// ## Bit offset for the `HASHRATE_TWS` field.
    pub const HASHRATE_TWS_OFFSET: u8 = 0;

    /// ## Bit mask for the `BT8D_8_5` field.
    pub const BT8D_8_5_MASK: u32 = 0x0f00_0000;

    /// ## Bit mask for the `CORE_SRST` field.
    pub const CORE_SRST_MASK: u32 = 0x0040_0000;

    /// ## Bit mask for the `SPAT_NOD` field.
    pub const SPAT_NOD_MASK: u32 = 0x0020_0000;

    /// ## Bit mask for the `RVS_K0` field.
    pub const RVS_K0_MASK: u32 = 0x0010_0000;

    /// ## Bit mask for the `DSCLK_SEL` field.
    pub const DSCLK_SEL_MASK: u32 = 0x000c_0000;

    /// ## Bit mask for the `TOP_CLK_SEL` field.
    pub const TOP_CLK_SEL_MASK: u32 = 0x0002_0000;

    /// ## Bit mask for the `BCK_SEL` field.
    pub const BCK_SEL_MASK: u32 = 0x0001_0000;

    /// ## Bit mask for the `RET_ERR_NONCE` field.
    pub const RET_ERR_NONCE_MASK: u32 = 0x0000_8000;

    /// ## Bit mask for the `RFS` field.
    pub const RFS_MASK: u32 = 0x0000_4000;

    /// ## Bit mask for the `INV_CLKO` field.
    pub const INV_CLKO_MASK: u32 = 0x0000_2000;

    /// ## Bit mask for the `BT8D_4_0` field.
    pub const BT8D_4_0_MASK: u32 = 0x0000_1f00;

    /// ## Bit mask for the `RET_WORK_ERR_FLAG` field.
    pub const RET_WORK_ERR_FLAG_MASK: u32 = 0x0000_0080;

    /// ## Bit mask for the `TFS` field.
    ///
    /// The value is the literal `0xb111` moved up by the offset. It is not the
    /// mask of the bits that the name suggests, and no accessor uses it.
    pub const TFS_MASK: u32 = 0x000b_1110;

    /// ## Bit mask for the `HASHRATE_TWS` field.
    ///
    /// The value is the literal `0xb11` moved up by the offset. It is not the
    /// mask of the bits that the name suggests, and no accessor uses it.
    pub const HASHRATE_TWS_MASK: u32 = 0x0000_0b11;

    /// The 9-bit BT8D of a raw value: its `BT8D_8_5` field above its `BT8D_4_0` field.
    pub open spec fn spec_bt8d(raw: u32) -> int {
        field_u32(raw, Self::BT8D_8_5_MASK, Self::BT8D_8_5_OFFSET) * 32 + field_u32(
            raw,
            Self::BT8D_4_0_MASK,
            Self::BT8D_4_0_OFFSET,
        )
    }

    /// ## Get the BT8D.
    ///
    /// This returns an `u16` with the 9-bit baudrate divider.
    pub fn bt8d(&self) -> (value: u16)
        ensures
            value == Self::spec_bt8d(self@),
            value <= 0x1ff,
    {
        proof {
            lemma2_to64();
        }
        let high = get_field_u32(self.0, Self::BT8D_8_5_MASK, Self::BT8D_8_5_OFFSET) as u16;
        let low = get_field_u32(self.0, Self::BT8D_4_0_MASK, Self::BT8D_4_0_OFFSET) as u16;
        assert((high << 5) | low == high * 32 + low) by (bit_vector)
            requires
                high <= 0xf,
                low <= 0x1f,
        ;
        (high << 5) | low
    }

    /// ## Set the BT8D.
    ///
    /// A value wider than nine bits is truncated to them.
    #[must_use]
    pub fn set_bt8d(self, bt8d: u16) -> (reg: Self)
        ensures
            reg@ == with_field_u32(
                with_field_u32(
                    self@,
                    Self::BT8D_8_5_MASK,
                    Self::BT8D_8_5_OFFSET,
                    (bt8d >> 5) as u32,
                ),
                Self::BT8D_4_0_MASK,
                Self::BT8D_4_0_OFFSET,
                bt8d as u32,
            ),
            Self::spec_bt8d(reg@) == bt8d & 0x1ff,
            reg@ & !(Self::BT8D_8_5_MASK | Self::BT8D_4_0_MASK) == self@ & !(Self::BT8D_8_5_MASK
                | Self::BT8D_4_0_MASK),
    {
        let raw = self.0;
        let high = set_field_u32(raw, Self::BT8D_8_5_MASK, Self::BT8D_8_5_OFFSET, (bt8d >> 5) as u32);
        let both = set_field_u32(high, Self::BT8D_4_0_MASK, Self::BT8D_4_0_OFFSET, bt8d as u32);
        assert(((both & 0x0f00_0000) >> 24) * 32 + ((both & 0x0000_1f00) >> 8) == bt8d & 0x1ff && both
            & !(0x0f00_0000u32 | 0x0000_1f00) == raw & !(0x0f00_0000u32 | 0x0000_1f00))
            by (bit_vector)
            requires
                both == (((raw & !0x0f00_0000u32) | ((((bt8d >> 5) as u32) << 24) & 0x0f00_0000))
                    & !0x0000_1f00u32) | (((bt8d as u32) << 8) & 0x0000_1f00),
        ;
        Self(both)
    }

    /// ## Get the CORE_SRST state.
    ///
    /// This returns an `bool` with the CORE_SRST state.
    pub fn core_srst(&self) -> (on: bool)
        ensures
            on == flag_u32(self@, Self::CORE_SRST_MASK),
    {
        self.0 & Self::CORE_SRST_MASK == Self::CORE_SRST_MASK
    }

    /// ## Reset the Core.
    #[must_use]
    pub fn reset_core(self) -> (reg: Self)
        ensures
            reg@ == with_flag_u32(self@, Self::CORE_SRST_MASK),
            flag_u32(reg@, Self::CORE_SRST_MASK),
            reg@ & !Self::CORE_SRST_MASK == self@ & !Self::CORE_SRST_MASK,
    {
        proof {
            lemma_flag_u32(self.0, Self::CORE_SRST_MASK);
        }
        Self(self.0 | Self::CORE_SRST_MASK)
    }

    /// ## Get the BCLK_SEL.
    ///
    /// This returns an `BaudrateClockSelect` with the current Baudrate Clock Select.
    pub fn bclk_sel(&self) -> (sel: BaudrateClockSelect)
        ensures
            sel == (if flag_u32(self@, Self::BCK_SEL_MASK) {
                BaudrateClockSelect::Pll3
            } else {
                BaudrateClockSelect::Clki
            }),
    {
        if self.0 & Self::BCK_SEL_MASK == Self::BCK_SEL_MASK {
            BaudrateClockSelect::Pll3
        } else {
            BaudrateClockSelect::Clki
        }
    }

    /// ## Set the BCLK_SEL.
    #[must_use]
    pub fn set_bclk_sel(self, bclk_sel: BaudrateClockSelect) -> (reg: Self)
        ensures
            reg@ == (match bclk_sel {
                BaudrateClockSelect::Pll3 => with_flag_u32(self@, Self::BCK_SEL_MASK),
                BaudrateClockSelect::Clki => without_flag_u32(self@, Self::BCK_SEL_MASK),
            }),
            flag_u32(reg@, Self::BCK_SEL_MASK) <==> bclk_sel == BaudrateClockSelect::Pll3,
            reg@ & !Self::BCK_SEL_MASK == self@ & !Self::BCK_SEL_MASK,
    {
        proof {
            lemma_flag_u32(self.0, Self::BCK_SEL_MASK);
        }
        match bclk_sel {
            BaudrateClockSelect::Pll3 => Self(self.0 | Self::BCK_SEL_MASK),
            BaudrateClockSelect::Clki => Self(self.0 & !Self::BCK_SEL_MASK),
        }
    }
}

/// # I2C Control register
#[derive(Debug, Copy, Clone, Eq, PartialEq, Hash, Structural)]
pub struct I2CControl(u32);

impl View for I2CControl {
    type V = u32;

    closed spec fn view(&self) -> u32 {
        self.0
    }
}

impl From<u32> for I2CControl {
    fn from(val: u32) -> (reg: Self)
        ensures
            reg@ == val,
    {
        Self(val)
    }
}

impl vstd::std_specs::convert::FromSpecImpl<u32> for I2CControl {
    open spec fn obeys_from_spec() -> bool {
        true
    }

    open spec fn from_spec(val: u32) -> Self {
        Self::spec_from_raw(val)
    }
}

impl From<I2CControl> for u32 {
    fn from(val: I2CControl) -> (raw: u32) {
        val.0
    }
}

impl vstd::std_specs::convert::FromSpecImpl<I2CControl> for u32 {
    open spec fn obeys_from_spec() -> bool {
        true
    }

    open spec fn from_spec(val: I2CControl) -> u32 {
        val@
    }
}

impl Default for I2CControl {
    fn default() -> (reg: Self)
        ensures
            reg@ == Self::RESET,
    {
        Self(Self::RESET)
    }
}

impl Register for I2CControl {
    open spec fn spec_addr(&self) -> u8 {
        Self::ADDR
    }

    open spec fn spec_val(&self) -> u32 {
        self@
    }

    closed spec fn spec_from_raw(raw: u32) -> Self {
        Self(raw)
    }

    fn addr(&self) -> (addr: u8) {
        Self::ADDR
    }

    fn val(&self) -> (val: u32) {
        self.0
    }

    proof fn lemma_raw_round_trip(raw: u32, reg: Self) {
    }
}

impl I2CControl {
    /// ## I2C Control register address.
    pub const ADDR: u8 = 0x1C;

    /// ## I2C Control register reset value.
    pub const RESET: u32 = 0x0100_0000;

    /// ## Bit offset for the `BUSY` field.
    pub const BUSY_OFFSET: u8 = 31;

    /// ## Bit offset for the `DO_CMD` field.
    pub const DO_CMD_OFFSET: u8 = 24;

    /// ## Bit offset for the `I2C_ADDR` field.
    pub const I2C_ADDR_OFFSET: u8 = 17;

    /// ## Bit offset for the `RD_WR` field.
    pub const RD_WR_OFFSET: u8 = 16;

    /// ## Bit offset for the `I2C_REG_ADDR` field.
    pub const I2C_REG_ADDR_OFFSET: u8 = 8;

    /// ## Bit offset for the `I2C_REG_VAL` field.
    pub const I2C_REG_VAL_OFFSET: u8 = 0;

    /// ## Bit mask for the `BUSY` field.
    pub const BUSY_MASK: u32 = 0x8000_0000;

    /// ## Bit mask for the `DO_CMD` field.
    pub const DO_CMD_MASK: u32 = 0x0100_0000;

    /// ## Bit mask for the `I2C_ADDR` field.
    pub const I2C_ADDR_MASK: u32 = 0x00fe_0000;

    /// ## Bit mask for the two `RD_WR` bits: both are set for a write and clear
    /// for a read.
    pub const RD_WR_MASK: u32 = 0x0001_0000;

    /// ## Bit mask for the `I2C_REG_ADDR` field.
    pub const I2C_REG_ADDR_MASK: u32 = 0x0000_ff00;

    /// ## Bit mask for the `I2C_REG_VAL` field.
    pub const I2C_REG_VAL_MASK: u32 = 0x0000_00ff;
}

/// # Ordered Clock Enable register
#[derive(Debug, Copy, Clone, Eq, PartialEq, Hash, Structural)]
pub struct OrderedClockEnable(u32);

impl View for OrderedClockEnable {
    type V = u32;

    closed spec fn view(&self) -> u32 {
        self.0
    }
}

impl From<u32> for OrderedClockEnable {
    fn from(val: u32) -> (reg: Self)
        ensures
            reg@ == val,
    {
        Self(val)
    }
}

impl vstd::std_specs::convert::FromSpecImpl<u32> for OrderedClockEnable {
    open spec fn obeys_from_spec() -> bool {
        true
    }

    open spec fn from_spec(val: u32) -> Self {
        Self::spec_from_raw(val)
    }
}

impl From<OrderedClockEnable> for u32 {
    fn from(val: OrderedClockEnable) -> (raw: u32) {
        val.0
    }
}

impl vstd::std_specs::convert::FromSpecImpl<OrderedClockEnable> for u32 {
    open spec fn obeys_from_spec() -> bool {
        true
    }

    open spec fn from_spec(val: OrderedClockEnable) -> u32 {
        val@
    }
}

impl Default for OrderedClockEnable {
    fn default() -> (reg: Self)
        ensures
            reg@ == Self::RESET,
    {
        Self(Self::RESET)
    }
}

impl Register for OrderedClockEnable {
    open spec fn spec_addr(&self) -> u8 {
        Self::ADDR
    }

    open spec fn spec_val(&self) -> u32 {
        self@
    }

    closed spec fn spec_from_raw(raw: u32) -> Self {
        Self(raw)
    }

    fn addr(&self) -> (addr: u8) {
        Self::ADDR
    }

    fn val(&self) -> (val: u32) {
        self.0
    }

    proof fn lemma_raw_round_trip(raw: u32, reg: Self) {
    }
}

impl OrderedClockEnable {
    /// ## Ordered Clock Enable register address.
    pub const ADDR: u8 = 0x20;

    /// ## Ordered Clock Enable register reset value.
    pub const RESET: u32 = 0x0000_ffff;

    /// ## Bit offset for the `CLKEN` field.
    pub const CLKEN_OFFSET: u8 = 0;

    /// ## Bit mask for the `CLKEN` field.
    pub const CLKEN_MASK: u32 = 0x0000_ffff;
}

/// # Fast UART Configuration register
///
/// Used to configure UART settings.
#[derive(Debug, Copy, Clone, Eq, PartialEq, Hash, Structural)]
pub struct FastUARTConfiguration(u32);

impl View for FastUARTConfiguration {
    type V = u32;

    closed spec fn view(&self) -> u32 {
        self.0
    }
}

impl From<u32> for FastUARTConfiguration {
    fn from(val: u32) -> (reg: Self)
        ensures
            reg@ == val,
    {
        Self(val)
    }
}

impl vstd::std_specs::convert::FromSpecImpl<u32> for FastUARTConfiguration {
    open spec fn obeys_from_spec() -> bool {
        true
    }

    open spec fn from_spec(val: u32) -> Self {
        Self::spec_from_raw(val)
    }
}

impl From<FastUARTConfiguration> for u32 {
    fn from(val: FastUARTConfiguration) -> (raw: u32) {
        val.0
    }
}

impl vstd::std_specs::convert::FromSpecImpl<FastUARTConfiguration> for u32 {
    open spec fn obeys_from_spec() -> bool {
        true
    }

    open spec fn from_spec(val: FastUARTConfiguration) -> u32 {
        val@
    }
}

impl Default for FastUARTConfiguration {
    fn default() -> (reg: Self)
        ensures
            reg@ == Self::RESET,
    {
        Self(Self::RESET)
    }
}

impl Register for FastUARTConfiguration {
    open spec fn spec_addr(&self) -> u8 {
        Self::ADDR
    }

    open spec fn spec_val(&self) -> u32 {
        self@
    }

    closed spec fn spec_from_raw(raw: u32) -> Self {
        Self(raw)
    }

    fn addr(&self) -> (addr: u8) {
        Self::ADDR
    }

    fn val(&self) -> (val: u32) {
        self.0
    }

    proof fn lemma_raw_round_trip(raw: u32, reg: Self) {
    }
}

impl FastUARTConfiguration {
    /// ## Fast UART Configuration register address.
    pub const ADDR: u8 = 0x28;

    /// ## Fast UART Configuration register reset value.
    pub const RESET: u32 = 0x0600_000f;

    /// ## Bit offset for the `DIV4_ODDSET` field.
    pub const DIV4_ODDSET_OFFSET: u8 = 30;

    /// ## Bit offset for the `PLL3_DIV4` field.
    pub const PLL3_DIV4_OFFSET: u8 = 24;

    /// ## Bit offset for the `USRC_ODDSET` field.
    pub const USRC_ODDSET_OFFSET: u8 = 22;

    /// ## Bit offset for the `USRC_DIV` field.
    pub const USRC_DIV_OFFSET: u8 = 16;

    /// ## Bit offset for the `FORCE_CORE_EN` field.
    pub const FORCE_CORE_EN_OFFSET: u8 = 15;

    /// ## Bit offset for the `CLKO_SEL` field.
    pub const CLKO_SEL_OFFSET: u8 = 14;

    /// ## Bit offset for the `CLKO_ODDSET` field.
    pub const CLKO_ODDSET_OFFSET: u8 = 12;

    /// ## Bit offset for the `CLKO_DIV` field.
    pub const CLKO_DIV_OFFSET: u8 = 0;

    /// ## Bit mask for the `DIV4_ODDSET` field.
    pub const DIV4_ODDSET_MASK: u32 = 0xc000_0000;

    /// ## Bit mask for the `PLL3_DIV4` field.
    pub const PLL3_DIV4_MASK: u32 = 0x0f00_0000;

    /// ## Bit mask for the `USRC_ODDSET` field.
    pub const USRC_ODDSET_MASK: u32 = 0x00c0_0000;

    /// ## Bit mask for the `USRC_DIV` field.
    pub const USRC_DIV_MASK: u32 = 0x003f_0000;

    /// ## Bit mask for the `FORCE_CORE_EN` field.
    pub const FORCE_CORE_EN_MASK: u32 = 0x0000_8000;

    /// ## Bit mask for the `CLKO_SEL` field.
    pub const CLKO_SEL_MASK: u32 = 0x0000_4000;

    /// ## Bit mask for the `CLKO_ODDSET` field.
    pub const CLKO_ODDSET_MASK: u32 = 0x0000_3000;

    /// ## Bit mask for the `CLKO_DIV` field.
    pub const CLKO_DIV_MASK: u32 = 0x0000_00ff;

    /// ## Get the PLL3_DIV4.
    ///
    /// This returns an `u8` with the PLL3_DIV4.
    pub fn pll3_div4(&self) -> (value: u8)
        ensures
            value == field_u32(self@, Self::PLL3_DIV4_MASK, Self::PLL3_DIV4_OFFSET),
            value <= 0xf,
    {
        proof {
            lemma2_to64();
        }
        get_field_u32(self.0, Self::PLL3_DIV4_MASK, Self::PLL3_DIV4_OFFSET) as u8
    }

    /// ## Set the PLL3_DIV4.
    ///
    /// A value wider than the field is truncated to it.
    #[must_use]
    pub fn set_pll3_div4(self, pll3_div4: u8) -> (reg: Self)
        ensures
            reg@ == with_field_u32(self@, Self::PLL3_DIV4_MASK, Self::PLL3_DIV4_OFFSET, pll3_div4 as u32),
            field_u32(reg@, Self::PLL3_DIV4_MASK, Self::PLL3_DIV4_OFFSET) == (pll3_div4 as u32) & 0xf,
            reg@ & !Self::PLL3_DIV4_MASK == self@ & !Self::PLL3_DIV4_MASK,
    {
        proof {
            lemma2_to64();
        }
        Self(set_field_u32(self.0, Self::PLL3_DIV4_MASK, Self::PLL3_DIV4_OFFSET, pll3_div4 as u32))
    }
}

/// # UART Relay register
#[derive(Debug, Copy, Clone, Eq, PartialEq, Hash, Structural)]
pub struct UARTRelay(u32);

impl View for UARTRelay {
    type V = u32;

    closed spec fn view(&self) -> u32 {
        self.0
    }
}

impl From<u32> for UARTRelay {
    fn from(val: u32) -> (reg: Self)
        ensures
            reg@ == val,
    {
        Self(val)
    }
}

impl vstd::std_specs::convert::FromSpecImpl<u32> for UARTRelay {
    open spec fn obeys_from_spec() -> bool {
        true
    }

    open spec fn from_spec(val: u32) -> Self {
        Self::spec_from_raw(val)
    }
}

impl From<UARTRelay> for u32 {
    fn from(val: UARTRelay) -> (raw: u32) {
        val.0
    }
}

impl vstd::std_specs::convert::FromSpecImpl<UARTRelay> for u32 {
    open spec fn obeys_from_spec() -> bool {
        true
    }

    open spec fn from_spec(val: UARTRelay) -> u32 {
        val@
    }
}

impl Default for UARTRelay {
    fn default() -> (reg: Self)
        ensures
            reg@ == Self::RESET,
    {
        Self(Self::RESET)
    }
}

impl Register for UARTRelay {
    open spec fn spec_addr(&self) -> u8 {
        Self::ADDR
    }

    open spec fn spec_val(&self) -> u32 {
        self@
    }

    closed spec fn spec_from_raw(raw: u32) -> Self {
        Self(raw)
    }

    fn addr(&self) -> (addr: u8) {
        Self::ADDR
    }

    fn val(&self) -> (val: u32) {
        self.0
    }

    proof fn lemma_raw_round_trip(raw: u32, reg: Self) {
    }
}

impl UARTRelay {
    /// ## UART Relay register address.
    pub const ADDR: u8 = 0x2C;

    /// ## UART Relay register reset value.
    pub const RESET: u32 = 0x000f_0000;

    /// ## Bit offset for the `GAP_CNT` field.
    pub const GAP_CNT_OFFSET: u8 = 16;

    /// ## Bit offset for the `RO_REL_EN` field.
    pub const RO_REL_EN_OFFSET: u8 = 1;

    /// ## Bit offset for the `CO_REL_EN` field.
    pub const CO_REL_EN_OFFSET: u8 = 0;

    /// ## Bit mask for the `GAP_CNT` field.
    pub const GAP_CNT_MASK: u32 = 0xffff_0000;

    /// ## Bit mask for the `RO_REL_EN` field.
    pub const RO_REL_EN_MASK: u32 = 0x0000_0002;

    /// ## Bit mask for the `CO_REL_EN` field.
    pub const CO_REL_EN_MASK: u32 = 0x0000_0001;
}

/// # Ticket Mask 2 register
#[derive(Debug, Copy, Clone, Eq, PartialEq, Hash, Structural)]
pub struct TicketMask2(u32);

impl View for TicketMask2 {
    type V = u32;

    closed spec fn view(&self) -> u32 {
        self.0
    }
}

impl From<u32> for TicketMask2 {
    fn from(val: u32) -> (reg: Self)
        ensures
            reg@ == val,
    {
        Self(val)
    }
}

impl vstd::std_specs::convert::FromSpecImpl<u32> for TicketMask2 {
    open spec fn obeys_from_spec() -> bool {
        true
    }

    open spec fn from_spec(val: u32) -> Self {
        Self::spec_from_raw(val)
    }
}

impl From<TicketMask2> for u32 {
    fn from(val: TicketMask2) -> (raw: u32) {
        val.0
    }
}

impl vstd::std_specs::convert::FromSpecImpl<TicketMask2> for u32 {
    open spec fn obeys_from_spec() -> bool {
        true
    }

    open spec fn from_spec(val: TicketMask2) -> u32 {
        val@
    }
}

impl Default for TicketMask2 {
    fn default() -> (reg: Self)
        ensures
            reg@ == Self::RESET,
    {
        Self(Self::RESET)
    }
}

impl Register for TicketMask2 {
    open spec fn spec_addr(&self) -> u8 {
        Self::ADDR
    }

    open spec fn spec_val(&self) -> u32 {
        self@
    }

    closed spec fn spec_from_raw(raw: u32) -> Self {
        Self(raw)
    }

    fn addr(&self) -> (addr: u8) {
        Self::ADDR
    }

    fn val(&self) -> (val: u32) {
        self.0
    }

    proof fn lemma_raw_round_trip(raw: u32, reg: Self) {
    }
}

impl TicketMask2 {
    /// ## Ticket Mask 2 register address.
    pub const ADDR: u8 = 0x38;

    /// ## Ticket Mask 2 register reset value.
    pub const RESET: u32 = 0x0000_0000;

    /// ## Bit offset for the `TM` field.
    pub const TM_OFFSET: u8 = 0;

    /// ## Bit mask for the `TM` field.
    pub const TM_MASK: u32 = 0xffff_ffff;
}

/// # Core Register Control register
///
/// Used to read and write the registers of a core: it carries the direction,
/// the core, the identifier of the core register and, for a write, its value.
#[derive(Debug, Copy, Clone, Eq, PartialEq, Hash, Structural)]
pub struct CoreRegisterControl(u32);

impl View for CoreRegisterControl {
    type V = u32;

    closed spec fn view(&self) -> u32 {
        self.0
    }
}

impl From<u32> for CoreRegisterControl {
    fn from(val: u32) -> (reg: Self)
        ensures
            reg@ == val,
    {
        Self(val)
    }
}

impl vstd::std_specs::convert::FromSpecImpl<u32> for CoreRegisterControl {
    open spec fn obeys_from_spec() -> bool {
        true
    }

    open spec fn from_spec(val: u32) -> Self {
        Self::spec_from_raw(val)
    }
}

impl From<CoreRegisterControl> for u32 {
    fn from(val: CoreRegisterControl) -> (raw: u32) {
        val.0
    }
}

impl vstd::std_specs::convert::FromSpecImpl<CoreRegisterControl> for u32 {
    open spec fn obeys_from_spec() -> bool {
        true
    }

    open spec fn from_spec(val: CoreRegisterControl) -> u32 {
        val@
    }
}

impl Default for CoreRegisterControl {
    fn default() -> (reg: Self)
        ensures
            reg@ == Self::RESET,
    {
        Self(Self::RESET)
    }
}

impl Register for CoreRegisterControl {
    open spec fn spec_addr(&self) -> u8 {
        Self::ADDR
    }

    open spec fn spec_val(&self) -> u32 {
        self@
    }

    closed spec fn spec_from_raw(raw: u32) -> Self {
        Self(raw)
    }

    fn addr(&self) -> (addr: u8) {
        Self::ADDR
    }

    fn val(&self) -> (val: u32) {
        self.0
    }

    proof fn lemma_raw_round_trip(raw: u32, reg: Self) {
    }
}

impl CoreRegisterControl {
    /// ## Core Register Control register address.
    pub const ADDR: u8 = 0x3C;

    /// ## Core Register Control register reset value.
    pub const RESET: u32 = 0x0000_0000;

    /// ## Bit offset for the `RD_WR1` field.
    pub const RD_WR1_OFFSET: u8 = 31;

    /// ## Bit offset for the `CORE_ID` field.
    pub const CORE_ID_OFFSET: u8 = 16;

    /// ## Bit offset for the `RD_WR2` field.
    pub const RD_WR2_OFFSET: u8 = 15;

    /// ## Bit offset for the `CORE_REG_ID` field.
    pub const CORE_REG_ID_OFFSET: u8 = 8;

    /// ## Bit offset for the `CORE_REG_VAL` field.
    pub const CORE_REG_VAL_OFFSET: u8 = 0;

    /// ## Bit mask for the two `RD_WR` bits: both are set for a write and clear
    /// for a read.
    pub const RD_WR_MASK: u32 = 0x8000_8000;

    /// ## Bit mask for the `CORE_ID` field.
    pub const CORE_ID_MASK: u32 = 0x00ff_0000;

    /// ## Bit mask for the `CORE_REG_ID` field.
    pub const CORE_REG_ID_MASK: u32 = 0x0000_0f00;

    /// ## Bit mask for the `CORE_REG_VAL` field.
    pub const CORE_REG_VAL_MASK: u32 = 0x0000_00ff;

    /// The control value that asks for a read of the core register `core_reg_id`
    /// of the core `core_id`, made from `raw`: both direction bits clear, the
    /// core and the identifier in their fields, and the value field all ones.
    pub open spec fn spec_read(raw: u32, core_id: u8, core_reg_id: u8) -> u32 {
        with_flag_u32(
            with_field_u32(
                with_field_u32(
                    without_flag_u32(raw, Self::RD_WR_MASK),
                    Self::CORE_ID_MASK,
                    Self::CORE_ID_OFFSET,
                    core_id as u32,
                ),
                Self::CORE_REG_ID_MASK,
                Self::CORE_REG_ID_OFFSET,
                core_reg_id as u32,
            ),
            Self::CORE_REG_VAL_MASK,
        )
    }

    /// The control value that writes `val` to the core register `core_reg_id`
    /// of the core `core_id`, made from `raw`: both direction bits set, and
    /// the core, the identifier and the value in their fields.
    pub open spec fn spec_write(raw: u32, core_id: u8, core_reg_id: u8, val: u8) -> u32 {
        with_field_u32(
            with_field_u32(
                with_field_u32(
                    with_flag_u32(raw, Self::RD_WR_MASK),
                    Self::CORE_ID_MASK,
                    Self::CORE_ID_OFFSET,
                    core_id as u32,
                ),
                Self::CORE_REG_ID_MASK,
                Self::CORE_REG_ID_OFFSET,
                core_reg_id as u32,
            ),
            Self::CORE_REG_VAL_MASK,
            Self::CORE_REG_VAL_OFFSET,
            val as u32,
        )
    }

    /// The fields of a read request hold what was asked for, and the bits
    /// outside them are those of `raw`.
    pub proof fn lemma_read_fields(raw: u32, core_id: u8, core_reg_id: u8)
        ensures
            Self::spec_read(raw, core_id, core_reg_id) & Self::RD_WR_MASK == 0,
            field_u32(
                Self::spec_read(raw, core_id, core_reg_id),
                Self::CORE_ID_MASK,
                Self::CORE_ID_OFFSET,
            ) == core_id,
            field_u32(
                Self::spec_read(raw, core_id, core_reg_id),
                Self::CORE_REG_ID_MASK,
                Self::CORE_REG_ID_OFFSET,
            ) == core_reg_id & 0xf,
            field_u32(
                Self::spec_read(raw, core_id, core_reg_id),
                Self::CORE_REG_VAL_MASK,
                Self::CORE_REG_VAL_OFFSET,
            ) == 0xff,
            Self::spec_read(raw, core_id, core_reg_id) & !0x80ff_8fffu32 == raw & !0x80ff_8fffu32,
    {
        let r = Self::spec_read(raw, core_id, core_reg_id);
        assert(r & 0x8000_8000 == 0 && (r & 0x00ff_0000) >> 16 == core_id && (r & 0x0000_0f00) >> 8
            == core_reg_id & 0xf && (r & 0x0000_00ff) >> 0 == 0xff && r & !0x80ff_8fffu32 == raw
            & !0x80ff_8fffu32) by (bit_vector)
            requires
                r == ((((((raw & !0x8000_8000u32) & !0x00ff_0000u32) | (((core_id as u32) << 16)
                    & 0x00ff_0000)) & !0x0000_0f00u32) | (((core_reg_id as u32) << 8)
                    & 0x0000_0f00)) | 0x0000_00ff),
        ;
    }

    /// The fields of a write request hold what was asked for, and the bits
    /// outside them are those of `raw`.
    pub proof fn lemma_write_fields(raw: u32, core_id: u8, core_reg_id: u8, val: u8)
        ensures
            flag_u32(Self::spec_write(raw, core_id, core_reg_id, val), Self::RD_WR_MASK),
            field_u32(
                Self::spec_write(raw, core_id, core_reg_id, val),
                Self::CORE_ID_MASK,
                Self::CORE_ID_OFFSET,
            ) == core_id,
            field_u32(
                Self::spec_write(raw, core_id, core_reg_id, val),
                Self::CORE_REG_ID_MASK,
                Self::CORE_REG_ID_OFFSET,
            ) == core_reg_id & 0xf,
            field_u32(
                Self::spec_write(raw, core_id, core_reg_id, val),
                Self::CORE_REG_VAL_MASK,
                Self::CORE_REG_VAL_OFFSET,
            ) == val,
            Self::spec_write(raw, core_id, core_reg_id, val) & !0x80ff_8fffu32 == raw
                & !0x80ff_8fffu32,
    {
        let r = Self::spec_write(raw, core_id, core_reg_id, val);
        assert(r & 0x8000_8000 == 0x8000_8000 && (r & 0x00ff_0000) >> 16 == core_id && (r
            & 0x0000_0f00) >> 8 == core_reg_id & 0xf && (r & 0x0000_00ff) >> 0 == val && r
            & !0x80ff_8fffu32 == raw & !0x80ff_8fffu32) by (bit_vector)
            requires
                r == (((((((raw | 0x8000_8000u32) & !0x00ff_0000u32) | (((core_id as u32) << 16)
                    & 0x00ff_0000)) & !0x0000_0f00u32) | (((core_reg_id as u32) << 8)
                    & 0x0000_0f00)) & !0x0000_00ffu32) | (((val as u32) << 0) & 0x0000_00ff)),
        ;
    }

    /// ## Set CoreRegisterControl for a Core Register Read.
    #[must_use]
    pub fn read(self, core_id: u8, core_reg: impl CoreRegister) -> (reg: Self)
        ensures
            reg@ == Self::spec_read(self@, core_id, core_reg.spec_id()),
    {
        let cleared = self.0 & !Self::RD_WR_MASK;
        let with_core = set_field_u32(
            cleared,
            Self::CORE_ID_MASK,
            Self::CORE_ID_OFFSET,
            core_id as u32,
        );
        let with_reg = set_field_u32(
            with_core,
            Self::CORE_REG_ID_MASK,
            Self::CORE_REG_ID_OFFSET,
            core_reg.id() as u32,
        );
        Self(with_reg | Self::CORE_REG_VAL_MASK)
    }

    /// ## Set CoreRegisterControl for a Core Register Write.
    #[must_use]
    pub fn write(self, core_id: u8, core_reg: impl CoreRegister) -> (reg: Self)
        ensures
            reg@ == Self::spec_write(self@, core_id, core_reg.spec_id(), core_reg.spec_val()),
    {
        let raised = self.0 | Self::RD_WR_MASK;
        let with_core = set_field_u32(
            raised,
            Self::CORE_ID_MASK,
            Self::CORE_ID_OFFSET,
            core_id as u32,
        );
        let with_reg = set_field_u32(
            with_core,
            Self::CORE_REG_ID_MASK,
            Self::CORE_REG_ID_OFFSET,
            core_reg.id() as u32,
        );
        Self(
            set_field_u32(
                with_reg,
                Self::CORE_REG_VAL_MASK,
                Self::CORE_REG_VAL_OFFSET,
                core_reg.val() as u32,
            ),
        )
    }
}

/// # Core Register Value register
///
/// Holds the value of a core register that was read.
#[derive(Debug, Copy, Clone, Eq, PartialEq, Hash, Structural)]
pub struct CoreRegisterValue(u32);

impl View for CoreRegisterValue {
    type V = u32;

    closed spec fn view(&self) -> u32 {
        self.0
    }
}

impl From<u32> for CoreRegisterValue {
    fn from(val: u32) -> (reg: Self)
        ensures
            reg@ == val,
    {
        Self(val)
    }
}

impl vstd::std_specs::convert::FromSpecImpl<u32> for CoreRegisterValue {
    open spec fn obeys_from_spec() -> bool {
        true
    }

    open spec fn from_spec(val: u32) -> Self {
        Self::spec_from_raw(val)
    }
}

impl From<CoreRegisterValue> for u32 {
    fn from(val: CoreRegisterValue) -> (raw: u32) {
        val.0
    }
}

impl vstd::std_specs::convert::FromSpecImpl<CoreRegisterValue> for u32 {
    open spec fn obeys_from_spec() -> bool {
        true
    }

    open spec fn from_spec(val: CoreRegisterValue) -> u32 {
        val@
    }
}

impl Default for CoreRegisterValue {
    fn default() -> (reg: Self)
        ensures
            reg@ == Self::RESET,
    {
        Self(Self::RESET)
    }
}

impl Register for CoreRegisterValue {
    open spec fn spec_addr(&self) -> u8 {
        Self::ADDR
    }

    open spec fn spec_val(&self) -> u32 {
        self@
    }

    closed spec fn spec_from_raw(raw: u32) -> Self {
        Self(raw)
    }

    fn addr(&self) -> (addr: u8) {
        Self::ADDR
    }

    fn val(&self) -> (val: u32) {
        self.0
    }

    proof fn lemma_raw_round_trip(raw: u32, reg: Self) {
    }
}

impl CoreRegisterValue {
    /// ## Core Register Value register address.
    pub const ADDR: u8 = 0x40;

    /// ## Core Register Value register reset value.
    pub const RESET: u32 = 0x0000_0000;

    /// ## Bit offset for the `CORE_ID` field.
    pub const CORE_ID_OFFSET: u8 = 16;

    /// ## Bit offset for the `FOUND` field.
    pub const FOUND_OFFSET: u8 = 8;

    /// ## Bit offset for the `CORE_REG_VAL` field.
    pub const CORE_REG_VAL_OFFSET: u8 = 0;

    /// ## Bit mask for the `CORE_ID` field.
    pub const CORE_ID_MASK: u32 = 0x01ff_0000;

    /// ## Bit mask for the `FOUND` field.
    pub const FOUND_MASK: u32 = 0x0000_ff00;

    /// ## Bit mask for the `CORE_REG_VAL` field.
    pub const CORE_REG_VAL_MASK: u32 = 0x0000_00ff;

    /// ## Get the CORE_ID.
    ///
    /// This returns an `u16` with the CORE_ID.
    pub fn core_id(&self) -> (value: u16)
        ensures
            value == field_u32(self@, Self::CORE_ID_MASK, Self::CORE_ID_OFFSET),
            value <= 0x1ff,
    {
        proof {
            lemma2_to64();
        }
        get_field_u32(self.0, Self::CORE_ID_MASK, Self::CORE_ID_OFFSET) as u16
    }

    /// ## Get the FOUND.
    ///
    /// This returns an `u8` with the FOUND.
    pub fn found(&self) -> (value: u8)
        ensures
            value == field_u32(self@, Self::FOUND_MASK, Self::FOUND_OFFSET),
    {
        proof {
            lemma2_to64();
        }
        get_field_u32(self.0, Self::FOUND_MASK, Self::FOUND_OFFSET) as u8
    }

    /// ## Get the CORE_REG_VAL.
    ///
    /// This returns an `u8` with the CORE_REG_VAL.
    pub fn core_reg_val(&self) -> (value: u8)
        ensures
            value == field_u32(self@, Self::CORE_REG_VAL_MASK, Self::CORE_REG_VAL_OFFSET),
    {
        proof {
            lemma2_to64();
        }
        get_field_u32(self.0, Self::CORE_REG_VAL_MASK, Self::CORE_REG_VAL_OFFSET) as u8
    }

    /// ## Get the CoreRegister according to the given core_reg_id.
    ///
    /// ### Return
    /// - `Ok(CoreRegisters)` with the core register that `core_reg_id` names,
    ///   holding the `CORE_REG_VAL` of this register.
    /// - `Err(Error::UnknownCoreRegister(core_reg_id))` where `core_reg_id`
    ///   names no core register.
    pub fn core_reg(&self, core_reg_id: u8) -> (res: Result<CoreRegisters, Error>)
        ensures
            match res {
                Ok(reg) => CoreRegisters::spec_resolve(
                    core_reg_id,
                    field_u32(self@, Self::CORE_REG_VAL_MASK, Self::CORE_REG_VAL_OFFSET) as u8,
                ) == Some(reg),
                Err(e) => e == Error::UnknownCoreRegister(core_reg_id)
                    && CoreRegisters::spec_resolve(
                    core_reg_id,
                    field_u32(self@, Self::CORE_REG_VAL_MASK, Self::CORE_REG_VAL_OFFSET) as u8,
                ) is None,
            },
            res matches Ok(reg) ==> reg.spec_id() == core_reg_id && reg.spec_val() == field_u32(
                self@,
                Self::CORE_REG_VAL_MASK,
                Self::CORE_REG_VAL_OFFSET,
            ),
            res is Ok <==> core_reg_id < 8,
    {
        let val = self.core_reg_val();
        proof {
            CoreRegisters::lemma_resolve_round_trip(
                core_reg_id,
                val,
                CoreRegisters::CoreEnable(CoreEnable::spec_from_raw(val)),
            );
        }
        let core_reg = if core_reg_id == ClockDelayCtrl::ID {
            CoreRegisters::ClockDelayCtrl(ClockDelayCtrl::from(val))
        } else if core_reg_id == ProcessMonitorCtrl::ID {
            CoreRegisters::ProcessMonitorCtrl(ProcessMonitorCtrl::from(val))
        } else if core_reg_id == ProcessMonitorData::ID {
            CoreRegisters::ProcessMonitorData(ProcessMonitorData::from(val))
        } else if core_reg_id == CoreError::ID {
            CoreRegisters::CoreError(CoreError::from(val))
        } else if core_reg_id == CoreEnable::ID {
            CoreRegisters::CoreEnable(CoreEnable::from(val))
        } else if core_reg_id == HashClockCtrl::ID {
            CoreRegisters::HashClockCtrl(HashClockCtrl::from(val))
        } else if core_reg_id == HashClockCounter::ID {
            CoreRegisters::HashClockCounter(HashClockCounter::from(val))
        } else if core_reg_id == SweepClockCtrl::ID {
            CoreRegisters::SweepClockCtrl(SweepClockCtrl::from(val))
        } else {
            return Err(Error::UnknownCoreRegister(core_reg_id));
        };
        Ok(core_reg)
    }
}

/// # External Temperature Sensor Read register
#[derive(Debug, Copy, Clone, Eq, PartialEq, Hash, Structural)]
pub struct ExternalTemperatureSensorRead(u32);

impl View for ExternalTemperatureSensorRead {
    type V = u32;

    closed spec fn view(&self) -> u32 {
        self.0
    }
}

impl From<u32> for ExternalTemperatureSensorRead {
    fn from(val: u32) -> (reg: Self)
        ensures
            reg@ == val,
    {
        Self(val)
    }
}

impl vstd::std_specs::convert::FromSpecImpl<u32> for ExternalTemperatureSensorRead {
    open spec fn obeys_from_spec() -> bool {
        true
    }

    open spec fn from_spec(val: u32) -> Self {
        Self::spec_from_raw(val)
    }
}

impl From<ExternalTemperatureSensorRead> for u32 {
    fn from(val: ExternalTemperatureSensorRead) -> (raw: u32) {
        val.0
    }
}

impl vstd::std_specs::convert::FromSpecImpl<ExternalTemperatureSensorRead> for u32 {
    open spec fn obeys_from_spec() -> bool {
        true
    }

    open spec fn from_spec(val: ExternalTemperatureSensorRead) -> u32 {
        val@
    }
}

impl Default for ExternalTemperatureSensorRead {
    fn default() -> (reg: Self)
        ensures
            reg@ == Self::RESET,
    {
        Self(Self::RESET)
    }
}

impl Register for ExternalTemperatureSensorRead {
    open spec fn spec_addr(&self) -> u8 {
        Self::ADDR
    }

    open spec fn spec_val(&self) -> u32 {
        self@
    }

    closed spec fn spec_from_raw(raw: u32) -> Self {
        Self(raw)
    }

    fn addr(&self) -> (addr: u8) {
        Self::ADDR
    }

    fn val(&self) -> (val: u32) {
        self.0
    }

    proof fn lemma_raw_round_trip(raw: u32, reg: Self) {
    }
}

impl ExternalTemperatureSensorRead {
    /// ## External Temperature Sensor Read register address.
    pub const ADDR: u8 = 0x44;

    /// ## External Temperature Sensor Read register reset value.
    pub const RESET: u32 = 0x0000_0100;

    /// ## Bit offset for the `LOCAL_TEMP_ADDR` field.
    pub const LOCAL_TEMP_ADDR_OFFSET: u8 = 24;

    /// ## Bit offset for the `LOCAL_TEMP_DATA` field.
    pub const LOCAL_TEMP_DATA_OFFSET: u8 = 16;

    /// ## Bit offset for the `EXTERNAL_TEMP_ADDR` field.
    pub const EXTERNAL_TEMP_ADDR_OFFSET: u8 = 8;

    /// ## Bit offset for the `EXTERNAL_TEMP_DATA` field.
    pub const EXTERNAL_TEMP_DATA_OFFSET: u8 = 0;

    /// ## Bit mask for the `LOCAL_TEMP_ADDR` field.
    pub const LOCAL_TEMP_ADDR_MASK: u32 = 0xff00_0000;

    /// ## Bit mask for the `LOCAL_TEMP_DATA` field.
    pub const LOCAL_TEMP_DATA_MASK: u32 = 0x00ff_0000;

    /// ## Bit mask for the `EXTERNAL_TEMP_ADDR` field.
    pub const EXTERNAL_TEMP_ADDR_MASK: u32 = 0x0000_ff00;

    /// ## Bit mask for the `EXTERNAL_TEMP_DATA` field.
    pub const EXTERNAL_TEMP_DATA_MASK: u32 = 0x0000_00ff;
}

/// # Error Flag register
#[derive(Debug, Copy, Clone, Eq, PartialEq, Hash, Structural)]
pub struct ErrorFlag(u32);

impl View for ErrorFlag {
    type V = u32;

    closed spec fn view(&self) -> u32 {
        self.0
    }
}

impl From<u32> for ErrorFlag {
    fn from(val: u32) -> (reg: Self)
        ensures
            reg@ == val,
    {
        Self(val)
    }
}

impl vstd::std_specs::convert::FromSpecImpl<u32> for ErrorFlag {
    open spec fn obeys_from_spec() -> bool {
        true
    }

    open spec fn from_spec(val: u32) -> Self {
        Self::spec_from_raw(val)
    }
}

impl From<ErrorFlag> for u32 {
    fn from(val: ErrorFlag) -> (raw: u32) {
        val.0
    }
}

impl vstd::std_specs::convert::FromSpecImpl<ErrorFlag> for u32 {
    open spec fn obeys_from_spec() -> bool {
        true
    }

    open spec fn from_spec(val: ErrorFlag) -> u32 {
        val@
    }
}

impl Default for ErrorFlag {
    fn default() -> (reg: Self)
        ensures
            reg@ == Self::RESET,
    {
        Self(Self::RESET)
    }
}

impl Register for ErrorFlag {
    open spec fn spec_addr(&self) -> u8 {
        Self::ADDR
    }

    open spec fn spec_val(&self) -> u32 {
        self@
    }

    closed spec fn spec_from_raw(raw: u32) -> Self {
        Self(raw)
    }

    fn addr(&self) -> (addr: u8) {
        Self::ADDR
    }

    fn val(&self) -> (val: u32) {
        self.0
    }

    proof fn lemma_raw_round_trip(raw: u32, reg: Self) {
    }
}

impl ErrorFlag {
    /// ## Error Flag register address.
    pub const ADDR: u8 = 0x48;

    /// ## Error Flag register reset value.
    pub const RESET: u32 = 0xff00_0000;

    /// ## Bit offset for the `CMD_ERR_CNT` field.
    pub const CMD_ERR_CNT_OFFSET: u8 = 24;

    /// ## Bit offset for the `WORK_ERR_CNT` field.
    pub const WORK_ERR_CNT_OFFSET: u8 = 16;

    /// ## Bit offset for the `CORE_RESP_ERR` field.
    pub const CORE_RESP_ERR_OFFSET: u8 = 0;

    /// ## Bit mask for the `CMD_ERR_CNT` field.
    pub const CMD_ERR_CNT_MASK: u32 = 0xff00_0000;

    /// ## Bit mask for the `WORK_ERR_CNT` field.
    pub const WORK_ERR_CNT_MASK: u32 = 0x00ff_0000;

    /// ## Bit mask for the `CORE_RESP_ERR` field.
    pub const CORE_RESP_ERR_MASK: u32 = 0x0000_00ff;
}

/// # Nonce Error Counter register
#[derive(Debug, Copy, Clone, Eq, PartialEq, Hash, Structural)]
pub struct NonceErrorCounter(u32);

impl View for NonceErrorCounter {
    type V = u32;

    closed spec fn view(&self) -> u32 {
        self.0
    }
}

impl From<u32> for NonceErrorCounter {
    fn from(val: u32) -> (reg: Self)
        ensures
            reg@ == val,
    {
        Self(val)
    }
}

impl vstd::std_specs::convert::FromSpecImpl<u32> for NonceErrorCounter {
    open spec fn obeys_from_spec() -> bool {
        true
    }

    open spec fn from_spec(val: u32) -> Self {
        Self::spec_from_raw(val)
    }
}

impl From<NonceErrorCounter> for u32 {
    fn from(val: NonceErrorCounter) -> (raw: u32) {
        val.0
    }
}

impl vstd::std_specs::convert::FromSpecImpl<NonceErrorCounter> for u32 {
    open spec fn obeys_from_spec() -> bool {
        true
    }

    open spec fn from_spec(val: NonceErrorCounter) -> u32 {
        val@
    }
}

impl Default for NonceErrorCounter {
    fn default() -> (reg: Self)
        ensures
            reg@ == Self::RESET,
    {
        Self(Self::RESET)
    }
}

impl Register for NonceErrorCounter {
    open spec fn spec_addr(&self) -> u8 {
        Self::ADDR
    }

    open spec fn spec_val(&self) -> u32 {
        self@
    }

    closed spec fn spec_from_raw(raw: u32) -> Self {
        Self(raw)
    }

    fn addr(&self) -> (addr: u8) {
        Self::ADDR
    }

    fn val(&self) -> (val: u32) {
        self.0
    }

    proof fn lemma_raw_round_trip(raw: u32, reg: Self) {
    }
}

impl NonceErrorCounter {
    /// ## Nonce Error Counter register address.
    pub const ADDR: u8 = 0x4C;

    /// ## Nonce Error Counter register reset value.
    pub const RESET: u32 = 0x0000_0000;

    /// ## Bit offset for the `ERR_CNT` field.
    pub const ERR_CNT_OFFSET: u8 = 0;

    /// ## Bit mask for the `ERR_CNT` field.
    pub const ERR_CNT_MASK: u32 = 0xffff_ffff;
}

/// # Nonce Overflow Counter register
#[derive(Debug, Copy, Clone, Eq, PartialEq, Hash, Structural)]
pub struct NonceOverflowCounter(u32);

impl View for NonceOverflowCounter {
    type V = u32;

    closed spec fn view(&self) -> u32 {
        self.0
    }
}

impl From<u32> for NonceOverflowCounter {
    fn from(val: u32) -> (reg: Self)
        ensures
            reg@ == val,
    {
        Self(val)
    }
}

impl vstd::std_specs::convert::FromSpecImpl<u32> for NonceOverflowCounter {
    open spec fn obeys_from_spec() -> bool {
        true
    }

    open spec fn from_spec(val: u32) -> Self {
        Self::spec_from_raw(val)
    }
}

impl From<NonceOverflowCounter> for u32 {
    fn from(val: NonceOverflowCounter) -> (raw: u32) {
        val.0
    }
}

impl vstd::std_specs::convert::FromSpecImpl<NonceOverflowCounter> for u32 {
    open spec fn obeys_from_spec() -> bool {
        true
    }

    open spec fn from_spec(val: NonceOverflowCounter) -> u32 {
        val@
    }
}

impl Default for NonceOverflowCounter {
    fn default() -> (reg: Self)
        ensures
            reg@ == Self::RESET,
    {
        Self(Self::RESET)
    }
}

impl Register for NonceOverflowCounter {
    open spec fn spec_addr(&self) -> u8 {
        Self::ADDR
    }

    open spec fn spec_val(&self) -> u32 {
        self@
    }

    closed spec fn spec_from_raw(raw: u32) -> Self {
        Self(raw)
    }

    fn addr(&self) -> (addr: u8) {
        Self::ADDR
    }

    fn val(&self) -> (val: u32) {
        self.0
    }

    proof fn lemma_raw_round_trip(raw: u32, reg: Self) {
    }
}

impl NonceOverflowCounter {
    /// ## Nonce Overflow Counter register address.
    pub const ADDR: u8 = 0x50;

    /// ## Nonce Overflow Counter register reset value.
    pub const RESET: u32 = 0x0000_0000;

    /// ## Bit offset for the `OVRF_CNT` field.
    pub const OVRF_CNT_OFFSET: u8 = 0;

    /// ## Bit mask for the `OVRF_CNT` field.
    pub const OVRF_CNT_MASK: u32 = 0xffff_ffff;
}

/// # Analog Mux Control register
#[derive(Debug, Copy, Clone, Eq, PartialEq, Hash, Structural)]
pub struct AnalogMuxControl(u32);

impl View for AnalogMuxControl {
    type V = u32;

    closed spec fn view(&self) -> u32 {
        self.0
    }
}

impl From<u32> for AnalogMuxControl {
    fn from(val: u32) -> (reg: Self)
        ensures
            reg@ == val,
    {
        Self(val)
    }
}

impl vstd::std_specs::convert::FromSpecImpl<u32> for AnalogMuxControl {
    open spec fn obeys_from_spec() -> bool {
        true
    }

    open spec fn from_spec(val: u32) -> Self {
        Self::spec_from_raw(val)
    }
}

impl From<AnalogMuxControl> for u32 {
    fn from(val: AnalogMuxControl) -> (raw: u32) {
        val.0
    }
}

impl vstd::std_specs::convert::FromSpecImpl<AnalogMuxControl> for u32 {
    open spec fn obeys_from_spec() -> bool {
        true
    }

    open spec fn from_spec(val: AnalogMuxControl) -> u32 {
        val@
    }
}

impl Default for AnalogMuxControl {
    fn default() -> (reg: Self)
        ensures
            reg@ == Self::RESET,
    {
        Self(Self::RESET)
    }
}

impl Register for AnalogMuxControl {
    open spec fn spec_addr(&self) -> u8 {
        Self::ADDR
    }

    open spec fn spec_val(&self) -> u32 {
        self@
    }

    closed spec fn spec_from_raw(raw: u32) -> Self {
        Self(raw)
    }

    fn addr(&self) -> (addr: u8) {
        Self::ADDR
    }

    fn val(&self) -> (val: u32) {
        self.0
    }

    proof fn lemma_raw_round_trip(raw: u32, reg: Self) {
    }
}

impl AnalogMuxControl {
    /// ## Analog Mux Control register address.
    pub const ADDR: u8 = 0x54;

    /// ## Analog Mux Control register reset value.
    pub const RESET: u32 = 0x0000_0000;

    /// ## Bit offset for the `DIODE_VDD_MUX_SEL` field.
    pub const DIODE_VDD_MUX_SEL_OFFSET: u8 = 0;

    /// ## Bit mask for the `DIODE_VDD_MUX_SEL` field.
    pub const DIODE_VDD_MUX_SEL_MASK: u32 = 0x0000_0007;
}

/// # Io Driver Strenght Configuration register
#[derive(Debug, Copy, Clone, Eq, PartialEq, Hash, Structural)]
pub struct IoDriverStrenghtConfiguration(u32);

impl View for IoDriverStrenghtConfiguration {
    type V = u32;

    closed spec fn view(&self) -> u32 {
        self.0
    }
}

impl From<u32> for IoDriverStrenghtConfiguration {
    fn from(val: u32) -> (reg: Self)
        ensures
            reg@ == val,
    {
        Self(val)
    }
}

impl vstd::std_specs::convert::FromSpecImpl<u32> for IoDriverStrenghtConfiguration {
    open spec fn obeys_from_spec() -> bool {
        true
    }

    open spec fn from_spec(val: u32) -> Self {
        Self::spec_from_raw(val)
    }
}

impl From<IoDriverStrenghtConfiguration> for u32 {
    fn from(val: IoDriverStrenghtConfiguration) -> (raw: u32) {
        val.0
    }
}

impl vstd::std_specs::convert::FromSpecImpl<IoDriverStrenghtConfiguration> for u32 {
    open spec fn obeys_from_spec() -> bool {
        true
    }

    open spec fn from_spec(val: IoDriverStrenghtConfiguration) -> u32 {
        val@
    }
}

impl Default for IoDriverStrenghtConfiguration {
    fn default() -> (reg: Self)
        ensures
            reg@ == Self::RESET,
    {
        Self(Self::RESET)
    }
}

impl Register for IoDriverStrenghtConfiguration {
    open spec fn spec_addr(&self) -> u8 {
        Self::ADDR
    }

    open spec fn spec_val(&self) -> u32 {
        self@
    }

    closed spec fn spec_from_raw(raw: u32) -> Self {
        Self(raw)
    }

    fn addr(&self) -> (addr: u8) {
        Self::ADDR
    }

    fn val(&self) -> (val: u32) {
        self.0
    }

    proof fn lemma_raw_round_trip(raw: u32, reg: Self) {
    }
}

impl IoDriverStrenghtConfiguration {
    /// ## Io Driver Strenght Configuration register address.
    pub const ADDR: u8 = 0x58;

    /// ## Io Driver Strenght Configuration register reset value.
    pub const RESET: u32 = 0x0211_2111;

    /// ## Bit offset for the `RF_DS` field.
    pub const RF_DS_OFFSET: u8 = 24;

    /// ## Bit offset for the `D3RS_EN` field.
    pub const D3RS_EN_OFFSET: u8 = 23;

    /// ## Bit offset for the `D2RS_EN` field.
    pub const D2RS_EN_OFFSET: u8 = 22;

    /// ## Bit offset for the `D1RS_EN` field.
    pub const D1RS_EN_OFFSET: u8 = 21;

    /// ## Bit offset for the `D0RS_EN` field.
    pub const D0RS_EN_OFFSET: u8 = 20;

    /// ## Bit offset for the `RO_DS` field.
    pub const RO_DS_OFFSET: u8 = 16;

    /// ## Bit offset for the `CLKO_DS` field.
    pub const CLKO_DS_OFFSET: u8 = 12;

    /// ## Bit offset for the `NRSTO_DS` field.
    pub const NRSTO_DS_OFFSET: u8 = 8;

    /// ## Bit offset for the `BO_DS` field.
    pub const BO_DS_OFFSET: u8 = 4;

    /// ## Bit offset for the `CO_DS` field.
    pub const CO_DS_OFFSET: u8 = 0;

    /// ## Bit mask for the `RF_DS` field.
    pub const RF_DS_MASK: u32 = 0x0f00_0000;

    /// ## Bit mask for the `D3RS_EN` field.
    pub const D3RS_EN_MASK: u32 = 0x0080_0000;

    /// ## Bit mask for the `D2RS_EN` field.
    pub const D2RS_EN_MASK: u32 = 0x0040_0000;

    /// ## Bit mask for the `D1RS_EN` field.
    pub const D1RS_EN_MASK: u32 = 0x0020_0000;

    /// ## Bit mask for the `D0RS_EN` field.
    pub const D0RS_EN_MASK: u32 = 0x0010_0000;

    /// ## Bit mask for the `RO_DS` field.
    pub const RO_DS_MASK: u32 = 0x000f_0000;

    /// ## Bit mask for the `CLKO_DS` field.
    pub const CLKO_DS_MASK: u32 = 0x0000_f000;

    /// ## Bit mask for the `NRSTO_DS` field.
    pub const NRSTO_DS_MASK: u32 = 0x0000_0f00;

    /// ## Bit mask for the `BO_DS` field.
    pub const BO_DS_MASK: u32 = 0x0000_00f0;

    /// ## Bit mask for the `CO_DS` field.
    pub const CO_DS_MASK: u32 = 0x0000_000f;
}

/// # Time Out register
#[derive(Debug, Copy, Clone, Eq, PartialEq, Hash, Structural)]
pub struct TimeOut(u32);

impl View for TimeOut {
    type V = u32;

    closed spec fn view(&self) -> u32 {
        self.0
    }
}

impl From<u32> for TimeOut {
    fn from(val: u32) -> (reg: Self)
        ensures
            reg@ == val,
    {
        Self(val)
    }
}

impl vstd::std_specs::convert::FromSpecImpl<u32> for TimeOut {
    open spec fn obeys_from_spec() -> bool {
        true
    }

    open spec fn from_spec(val: u32) -> Self {
        Self::spec_from_raw(val)
    }
}

impl From<TimeOut> for u32 {
    fn from(val: TimeOut) -> (raw: u32) {
        val.0
    }
}

impl vstd::std_specs::convert::FromSpecImpl<TimeOut> for u32 {
    open spec fn obeys_from_spec() -> bool {
        true
    }

    open spec fn from_spec(val: TimeOut) -> u32 {
        val@
    }
}

impl Default for TimeOut {
    fn default() -> (reg: Self)
        ensures
            reg@ == Self::RESET,
    {
        Self(Self::RESET)
    }
}

impl Register for TimeOut {
    open spec fn spec_addr(&self) -> u8 {
        Self::ADDR
    }

    open spec fn spec_val(&self) -> u32 {
        self@
    }

    closed spec fn spec_from_raw(raw: u32) -> Self {
        Self(raw)
    }

    fn addr(&self) -> (addr: u8) {
        Self::ADDR
    }

    fn val(&self) -> (val: u32) {
        self.0
    }

    proof fn lemma_raw_round_trip(raw: u32, reg: Self) {
    }
}

impl TimeOut {
    /// ## Time Out register address.
    pub const ADDR: u8 = 0x5C;

    /// ## Time Out register reset value.
    pub const RESET: u32 = 0x0000_ffff;

    /// ## Bit offset for the `TMOUT` field.
    pub const TMOUT_OFFSET: u8 = 0;

    /// ## Bit mask for the `TMOUT` field.
    pub const TMOUT_MASK: u32 = 0x0000_ffff;
}

/// # PLL1 Parameter register
///
/// Used to set PLL1 frequency.
#[derive(Debug, Copy, Clone, Eq, PartialEq, Hash, Structural)]
pub struct PLL1Parameter(u32);

impl View for PLL1Parameter {
    type V = u32;

    closed spec fn view(&self) -> u32 {
        self.0
    }
}

impl From<u32> for PLL1Parameter {
    fn from(val: u32) -> (reg: Self)
        ensures
            reg@ == val,
    {
        Self(val)
    }
}

impl vstd::std_specs::convert::FromSpecImpl<u32> for PLL1Parameter {
    open spec fn obeys_from_spec() -> bool {
        true
    }

    open spec fn from_spec(val: u32) -> Self {
        Self::spec_from_raw(val)
    }
}

impl From<PLL1Parameter> for u32 {
    fn from(val: PLL1Parameter) -> (raw: u32) {
        val.0
    }
}

impl vstd::std_specs::convert::FromSpecImpl<PLL1Parameter> for u32 {
    open spec fn obeys_from_spec() -> bool {
        true
    }

    open spec fn from_spec(val: PLL1Parameter) -> u32 {
        val@
    }
}

impl Default for PLL1Parameter {
    fn default() -> (reg: Self)
        ensures
            reg@ == Self::RESET,
    {
        Self(Self::RESET)
    }
}

impl Register for PLL1Parameter {
    open spec fn spec_addr(&self) -> u8 {
        Self::ADDR
    }

    open spec fn spec_val(&self) -> u32 {
        self@
    }

    closed spec fn spec_from_raw(raw: u32) -> Self {
        Self(raw)
    }

    fn addr(&self) -> (addr: u8) {
        Self::ADDR
    }

    fn val(&self) -> (val: u32) {
        self.0
    }

    proof fn lemma_raw_round_trip(raw: u32, reg: Self) {
    }
}

impl PLL1Parameter {
    /// ## PLL1 Parameter register address.
    pub const ADDR: u8 = 0x60;

    /// ## PLL1 Parameter register reset value.
    pub const RESET: u32 = 0x0064_0111;

    /// ## Bit offset for the `LOCKED` field.
    pub const LOCKED_OFFSET: u8 = 31;

    /// ## Bit offset for the `PLLEN` field.
    pub const PLLEN_OFFSET: u8 = 30;

    /// ## Bit offset for the `FBDIV` field.
    pub const FBDIV_OFFSET: u8 = 16;

    /// ## Bit offset for the `REFDIV` field.
    pub const REFDIV_OFFSET: u8 = 8;

    /// ## Bit offset for the `POSTDIV1` field.
    pub const POSTDIV1_OFFSET: u8 = 4;

    /// ## Bit offset for the `POSTDIV2` field.
    pub const POSTDIV2_OFFSET: u8 = 0;

    /// ## Bit mask for the `LOCKED` field.
    pub const LOCKED_MASK: u32 = 0x8000_0000;

    /// ## Bit mask for the `PLLEN` field.
    pub const PLLEN_MASK: u32 = 0x4000_0000;

    /// ## Bit mask for the `FBDIV` field.
    pub const FBDIV_MASK: u32 = 0x0fff_0000;

    /// ## Bit mask for the `REFDIV` field.
    pub const REFDIV_MASK: u32 = 0x0000_3f00;

    /// ## Bit mask for the `POSTDIV1` field.
    pub const POSTDIV1_MASK: u32 = 0x0000_0070;

    /// ## Bit mask for the `POSTDIV2` field.
    pub const POSTDIV2_MASK: u32 = 0x0000_0007;

    /// ## Get the PLL1 locked state.
    ///
    /// This returns an `bool` with the locked state.
    pub fn locked(&self) -> (on: bool)
        ensures
            on == flag_u32(self@, Self::LOCKED_MASK),
    {
        self.0 & Self::LOCKED_MASK == Self::LOCKED_MASK
    }

    /// ## Set the PLL1 locked state.
    #[must_use]
    pub fn lock(self) -> (reg: Self)
        ensures
            reg@ == with_flag_u32(self@, Self::LOCKED_MASK),
            flag_u32(reg@, Self::LOCKED_MASK),
            reg@ & !Self::LOCKED_MASK == self@ & !Self::LOCKED_MASK,
    {
        proof {
            lemma_flag_u32(self.0, Self::LOCKED_MASK);
        }
        Self(self.0 | Self::LOCKED_MASK)
    }

    /// ## Clear the PLL1 locked state.
    #[must_use]
    pub fn unlock(self) -> (reg: Self)
        ensures
            reg@ == without_flag_u32(self@, Self::LOCKED_MASK),
            !flag_u32(reg@, Self::LOCKED_MASK),
            reg@ & !Self::LOCKED_MASK == self@ & !Self::LOCKED_MASK,
    {
        proof {
            lemma_flag_u32(self.0, Self::LOCKED_MASK);
        }
        Self(self.0 & !Self::LOCKED_MASK)
    }

    /// ## Get the PLL1 enabled state.
    ///
    /// This returns an `bool` with the PLL enabled state.
    pub fn enabled(&self) -> (on: bool)
        ensures
            on == flag_u32(self@, Self::PLLEN_MASK),
    {
        self.0 & Self::PLLEN_MASK == Self::PLLEN_MASK
    }

    /// ## Enable the PLL1.
    #[must_use]
    pub fn enable(self) -> (reg: Self)
        ensures
            reg@ == with_flag_u32(self@, Self::PLLEN_MASK),
            flag_u32(reg@, Self::PLLEN_MASK),
            reg@ & !Self::PLLEN_MASK == self@ & !Self::PLLEN_MASK,
    {
        proof {
            lemma_flag_u32(self.0, Self::PLLEN_MASK);
        }
        Self(self.0 | Self::PLLEN_MASK)
    }

    /// ## Disable the PLL1.
    #[must_use]
    pub fn disable(self) -> (reg: Self)
        ensures
            reg@ == without_flag_u32(self@, Self::PLLEN_MASK),
            !flag_u32(reg@, Self::PLLEN_MASK),
            reg@ & !Self::PLLEN_MASK == self@ & !Self::PLLEN_MASK,
    {
        proof {
            lemma_flag_u32(self.0, Self::PLLEN_MASK);
        }
        Self(self.0 & !Self::PLLEN_MASK)
    }

    /// ## Get the PLL1 FB Divider.
    ///
    /// This returns an `u16` with the PLL1 FB Divider.
    pub fn fbdiv(&self) -> (value: u16)
        ensures
            value == field_u32(self@, Self::FBDIV_MASK, Self::FBDIV_OFFSET),
            value <= 0xfff,
    {
        proof {
            lemma2_to64();
        }
        get_field_u32(self.0, Self::FBDIV_MASK, Self::FBDIV_OFFSET) as u16
    }

    /// ## Set the PLL1 FB Divider.
    ///
    /// A value wider than the field is truncated to it.
    #[must_use]
    pub fn set_fbdiv(self, fbdiv: u16) -> (reg: Self)
        ensures
            reg@ == with_field_u32(self@, Self::FBDIV_MASK, Self::FBDIV_OFFSET, fbdiv as u32),
            field_u32(reg@, Self::FBDIV_MASK, Self::FBDIV_OFFSET) == (fbdiv as u32) & 0xfff,
            reg@ & !Self::FBDIV_MASK == self@ & !Self::FBDIV_MASK,
    {
        proof {
            lemma2_to64();
        }
        Self(set_field_u32(self.0, Self::FBDIV_MASK, Self::FBDIV_OFFSET, fbdiv as u32))
    }

    /// ## Get the PLL1 REF Divider.
    ///
    /// This returns an `u8` with the PLL1 REF Divider.
    pub fn refdiv(&self) -> (value: u8)
        ensures
            value == field_u32(self@, Self::REFDIV_MASK, Self::REFDIV_OFFSET),
            value <= 0x3f,
    {
        proof {
            lemma2_to64();
        }
        get_field_u32(self.0, Self::REFDIV_MASK, Self::REFDIV_OFFSET) as u8
    }

    /// ## Set the PLL1 REF Divider.
    ///
    /// A value wider than the field is truncated to it.
    #[must_use]
    pub fn set_refdiv(self, refdiv: u8) -> (reg: Self)
        ensures
            reg@ == with_field_u32(self@, Self::REFDIV_MASK, Self::REFDIV_OFFSET, refdiv as u32),
            field_u32(reg@, Self::REFDIV_MASK, Self::REFDIV_OFFSET) == (refdiv as u32) & 0x3f,
            reg@ & !Self::REFDIV_MASK == self@ & !Self::REFDIV_MASK,
    {
        proof {
            lemma2_to64();
        }
        Self(set_field_u32(self.0, Self::REFDIV_MASK, Self::REFDIV_OFFSET, refdiv as u32))
    }

    /// ## Get the PLL1 POST Divider 1.
    ///
    /// This returns an `u8` with the PLL1 POST Divider 1.
    pub fn postdiv1(&self) -> (value: u8)
        ensures
            value == field_u32(self@, Self::POSTDIV1_MASK, Self::POSTDIV1_OFFSET),
            value <= 0x7,
    {
        proof {
            lemma2_to64();
        }
        get_field_u32(self.0, Self::POSTDIV1_MASK, Self::POSTDIV1_OFFSET) as u8
    }

    /// ## Set the PLL1 POST Divider 1.
    ///
    /// A value wider than the field is truncated to it.
    #[must_use]
    pub fn set_postdiv1(self, postdiv1: u8) -> (reg: Self)
        ensures
            reg@ == with_field_u32(self@, Self::POSTDIV1_MASK, Self::POSTDIV1_OFFSET, postdiv1 as u32),
            field_u32(reg@, Self::POSTDIV1_MASK, Self::POSTDIV1_OFFSET) == (postdiv1 as u32) & 0x7,
            reg@ & !Self::POSTDIV1_MASK == self@ & !Self::POSTDIV1_MASK,
    {
        proof {
            lemma2_to64();
        }
        Self(set_field_u32(self.0, Self::POSTDIV1_MASK, Self::POSTDIV1_OFFSET, postdiv1 as u32))
    }

    /// ## Get the PLL1 POST Divider 2.
    ///
    /// This returns an `u8` with the PLL1 POST Divider 2.
    pub fn postdiv2(&self) -> (value: u8)
        ensures
            value == field_u32(self@, Self::POSTDIV2_MASK, Self::POSTDIV2_OFFSET),
            value <= 0x7,
    {
        proof {
            lemma2_to64();
        }
        get_field_u32(self.0, Self::POSTDIV2_MASK, Self::POSTDIV2_OFFSET) as u8
    }

    /// ## Set the PLL1 POST Divider 2.
    ///
    /// A value wider than the field is truncated to it.
    #[must_use]
    pub fn set_postdiv2(self, postdiv2: u8) -> (reg: Self)
        ensures
            reg@ == with_field_u32(self@, Self::POSTDIV2_MASK, Self::POSTDIV2_OFFSET, postdiv2 as u32),
            field_u32(reg@, Self::POSTDIV2_MASK, Self::POSTDIV2_OFFSET) == (postdiv2 as u32) & 0x7,
            reg@ & !Self::POSTDIV2_MASK == self@ & !Self::POSTDIV2_MASK,
    {
        proof {
            lemma2_to64();
        }
        Self(set_field_u32(self.0, Self::POSTDIV2_MASK, Self::POSTDIV2_OFFSET, postdiv2 as u32))
    }

    /// Whether the output frequency of the PLL can be computed from an input
    /// clock of `clki_hz` hertz: no divider of the register is zero, and the
    /// input clock times the feedback divider fits in 32 bits.
    pub open spec fn spec_frequency_defined(&self, clki_hz: u32) -> bool {
        pll_output_defined(
            clki_hz,
            field_u32(self@, Self::FBDIV_MASK, Self::FBDIV_OFFSET) as u16,
            field_u32(self@, Self::REFDIV_MASK, Self::REFDIV_OFFSET) as u8,
            field_u32(self@, Self::POSTDIV1_MASK, Self::POSTDIV1_OFFSET) as u8,
            field_u32(self@, Self::POSTDIV2_MASK, Self::POSTDIV2_OFFSET) as u8,
        )
    }

    /// The output frequency of the PLL in hertz, for an input clock of
    /// `clki_hz` hertz.
    pub open spec fn spec_frequency_hz(&self, clki_hz: u32) -> int {
        spec_pll_output_hz(
            clki_hz,
            field_u32(self@, Self::FBDIV_MASK, Self::FBDIV_OFFSET) as u16,
            field_u32(self@, Self::REFDIV_MASK, Self::REFDIV_OFFSET) as u8,
            field_u32(self@, Self::POSTDIV1_MASK, Self::POSTDIV1_OFFSET) as u8,
            field_u32(self@, Self::POSTDIV2_MASK, Self::POSTDIV2_OFFSET) as u8,
        )
    }

    /// ## Get the PLL1 Frequency.
    ///
    /// This returns the output frequency of the PLL for the input clock
    /// `clki_freq`: the input clock times the FB divider, over the product of
    /// the REF divider and the two POST dividers, rounded down.
    pub fn frequency(&self, clki_freq: HertzU32) -> (freq: HertzU32)
        requires
            self.spec_frequency_defined(hertz_raw(clki_freq)),
        ensures
            hertz_raw(freq) == self.spec_frequency_hz(hertz_raw(clki_freq)),
    {
        let clki_hz = hertz_to_raw(&clki_freq);
        hertz_from_raw(
            pll_output_hz(clki_hz, self.fbdiv(), self.refdiv(), self.postdiv1(), self.postdiv2()),
        )
    }

    /// ## Get the PLL1 Frequency, where it can be computed.
    ///
    /// This returns `None` where a divider of the register is zero or the
    /// input clock times the FB divider does not fit in 32 bits, and the
    /// frequency that `frequency` returns otherwise.
    pub fn checked_frequency(&self, clki_freq: HertzU32) -> (freq: Option<HertzU32>)
        ensures
            freq is Some <==> self.spec_frequency_defined(hertz_raw(clki_freq)),
            freq matches Some(f) ==> hertz_raw(f) == self.spec_frequency_hz(hertz_raw(clki_freq)),
    {
        let clki_hz = hertz_to_raw(&clki_freq);
        match checked_pll_output_hz(
            clki_hz,
            self.fbdiv(),
            self.refdiv(),
            self.postdiv1(),
            self.postdiv2(),
        ) {
            Some(_) => Some(self.frequency(clki_freq)),
            None => None,
        }
    }
}

/// # PLL2 Parameter register
///
/// Used to set PLL2 frequency.
#[derive(Debug, Copy, Clone, Eq, PartialEq, Hash, Structural)]
pub struct PLL2Parameter(u32);

impl View for PLL2Parameter {
    type V = u32;

    closed spec fn view(&self) -> u32 {
        self.0
    }
}

impl From<u32> for PLL2Parameter {
    fn from(val: u32) -> (reg: Self)
        ensures
            reg@ == val,
    {
        Self(val)
    }
}

impl vstd::std_specs::convert::FromSpecImpl<u32> for PLL2Parameter {
    open spec fn obeys_from_spec() -> bool {
        true
    }

    open spec fn from_spec(val: u32) -> Self {
        Self::spec_from_raw(val)
    }
}

impl From<PLL2Parameter> for u32 {
    fn from(val: PLL2Parameter) -> (raw: u32) {
        val.0
    }
}

impl vstd::std_specs::convert::FromSpecImpl<PLL2Parameter> for u32 {
    open spec fn obeys_from_spec() -> bool {
        true
    }

    open spec fn from_spec(val: PLL2Parameter) -> u32 {
        val@
    }
}

impl Default for PLL2Parameter {
    fn default() -> (reg: Self)
        ensures
            reg@ == Self::RESET,
    {
        Self(Self::RESET)
    }
}

impl Register for PLL2Parameter {
    open spec fn spec_addr(&self) -> u8 {
        Self::ADDR
    }

    open spec fn spec_val(&self) -> u32 {
        self@
    }

    closed spec fn spec_from_raw(raw: u32) -> Self {
        Self(raw)
    }

    fn addr(&self) -> (addr: u8) {
        Self::ADDR
    }

    fn val(&self) -> (val: u32) {
        self.0
    }

    proof fn lemma_raw_round_trip(raw: u32, reg: Self) {
    }
}

impl PLL2Parameter {
    /// ## PLL2 Parameter register address.
    pub const ADDR: u8 = 0x64;

    /// ## PLL2 Parameter register reset value.
    pub const RESET: u32 = 0x0068_0111;

    /// ## Bit offset for the `LOCKED` field.
    pub const LOCKED_OFFSET: u8 = 31;

    /// ## Bit offset for the `PLLEN` field.
    pub const PLLEN_OFFSET: u8 = 30;

    /// ## Bit offset for the `FBDIV` field.
    pub const FBDIV_OFFSET: u8 = 16;

    /// ## Bit offset for the `REFDIV` field.
    pub const REFDIV_OFFSET: u8 = 8;

    /// ## Bit offset for the `POSTDIV1` field.
    pub const POSTDIV1_OFFSET: u8 = 4;

    /// ## Bit offset for the `POSTDIV2` field.
    pub const POSTDIV2_OFFSET: u8 = 0;

    /// ## Bit mask for the `LOCKED` field.
    pub const LOCKED_MASK: u32 = 0x8000_0000;

    /// ## Bit mask for the `PLLEN` field.
    pub const PLLEN_MASK: u32 = 0x4000_0000;

    /// ## Bit mask for the `FBDIV` field.
    pub const FBDIV_MASK: u32 = 0x0fff_0000;

    /// ## Bit mask for the `REFDIV` field.
    pub const REFDIV_MASK: u32 = 0x0000_3f00;

    /// ## Bit mask for the `POSTDIV1` field.
    pub const POSTDIV1_MASK: u32 = 0x0000_0070;

    /// ## Bit mask for the `POSTDIV2` field.
    pub const POSTDIV2_MASK: u32 = 0x0000_0007;

    /// ## Get the PLL2 locked state.
    ///
    /// This returns an `bool` with the locked state.
    pub fn locked(&self) -> (on: bool)
        ensures
            on == flag_u32(self@, Self::LOCKED_MASK),
    {
        self.0 & Self::LOCKED_MASK == Self::LOCKED_MASK
    }

    /// ## Set the PLL2 locked state.
    #[must_use]
    pub fn lock(self) -> (reg: Self)
        ensures
            reg@ == with_flag_u32(self@, Self::LOCKED_MASK),
            flag_u32(reg@, Self::LOCKED_MASK),
            reg@ & !Self::LOCKED_MASK == self@ & !Self::LOCKED_MASK,
    {
        proof {
            lemma_flag_u32(self.0, Self::LOCKED_MASK);
        }
        Self(self.0 | Self::LOCKED_MASK)
    }

    /// ## Clear the PLL2 locked state.
    #[must_use]
    pub fn unlock(self) -> (reg: Self)
        ensures
            reg@ == without_flag_u32(self@, Self::LOCKED_MASK),
            !flag_u32(reg@, Self::LOCKED_MASK),
            reg@ & !Self::LOCKED_MASK == self@ & !Self::LOCKED_MASK,
    {
        proof {
            lemma_flag_u32(self.0, Self::LOCKED_MASK);
        }
        Self(self.0 & !Self::LOCKED_MASK)
    }

    /// ## Get the PLL2 enabled state.
    ///
    /// This returns an `bool` with the PLL enabled state.
    pub fn enabled(&self) -> (on: bool)
        ensures
            on == flag_u32(self@, Self::PLLEN_MASK),
    {
        self.0 & Self::PLLEN_MASK == Self::PLLEN_MASK
    }

    /// ## Enable the PLL2.
    #[must_use]
    pub fn enable(self) -> (reg: Self)
        ensures
            reg@ == with_flag_u32(self@, Self::PLLEN_MASK),
            flag_u32(reg@, Self::PLLEN_MASK),
            reg@ & !Self::PLLEN_MASK == self@ & !Self::PLLEN_MASK,
    {
        proof {
            lemma_flag_u32(self.0, Self::PLLEN_MASK);
        }
        Self(self.0 | Self::PLLEN_MASK)
    }

    /// ## Disable the PLL2.
    #[must_use]
    pub fn disable(self) -> (reg: Self)
        ensures
            reg@ == without_flag_u32(self@, Self::PLLEN_MASK),
            !flag_u32(reg@, Self::PLLEN_MASK),
            reg@ & !Self::PLLEN_MASK == self@ & !Self::PLLEN_MASK,
    {
        proof {
            lemma_flag_u32(self.0, Self::PLLEN_MASK);
        }
        Self(self.0 & !Self::PLLEN_MASK)
    }

    /// ## Get the PLL2 FB Divider.
    ///
    /// This returns an `u16` with the PLL2 FB Divider.
    pub fn fbdiv(&self) -> (value: u16)
        ensures
            value == field_u32(self@, Self::FBDIV_MASK, Self::FBDIV_OFFSET),
            value <= 0xfff,
    {
        proof {
            lemma2_to64();
        }
        get_field_u32(self.0, Self::FBDIV_MASK, Self::FBDIV_OFFSET) as u16
    }

    /// ## Set the PLL2 FB Divider.
    ///
    /// A value wider than the field is truncated to it.
    #[must_use]
    pub fn set_fbdiv(self, fbdiv: u16) -> (reg: Self)
        ensures
            reg@ == with_field_u32(self@, Self::FBDIV_MASK, Self::FBDIV_OFFSET, fbdiv as u32),
            field_u32(reg@, Self::FBDIV_MASK, Self::FBDIV_OFFSET) == (fbdiv as u32) & 0xfff,
            reg@ & !Self::FBDIV_MASK == self@ & !Self::FBDIV_MASK,
    {
        proof {
            lemma2_to64();
        }
        Self(set_field_u32(self.0, Self::FBDIV_MASK, Self::FBDIV_OFFSET, fbdiv as u32))
    }

    /// ## Get the PLL2 REF Divider.
    ///
    /// This returns an `u8` with the PLL2 REF Divider.
    pub fn refdiv(&self) -> (value: u8)
        ensures
            value == field_u32(self@, Self::REFDIV_MASK, Self::REFDIV_OFFSET),
            value <= 0x3f,
    {
        proof {
            lemma2_to64();
        }
        get_field_u32(self.0, Self::REFDIV_MASK, Self::REFDIV_OFFSET) as u8
    }

    /// ## Set the PLL2 REF Divider.
    ///
    /// A value wider than the field is truncated to it.
    #[must_use]
    pub fn set_refdiv(self, refdiv: u8) -> (reg: Self)
        ensures
            reg@ == with_field_u32(self@, Self::REFDIV_MASK, Self::REFDIV_OFFSET, refdiv as u32),
            field_u32(reg@, Self::REFDIV_MASK, Self::REFDIV_OFFSET) == (refdiv as u32) & 0x3f,
            reg@ & !Self::REFDIV_MASK == self@ & !Self::REFDIV_MASK,
    {
        proof {
            lemma2_to64();
        }
        Self(set_field_u32(self.0, Self::REFDIV_MASK, Self::REFDIV_OFFSET, refdiv as u32))
    }

    /// ## Get the PLL2 POST Divider 1.
    ///
    /// This returns an `u8` with the PLL2 POST Divider 1.
    pub fn postdiv1(&self) -> (value: u8)
        ensures
            value == field_u32(self@, Self::POSTDIV1_MASK, Self::POSTDIV1_OFFSET),
            value <= 0x7,
    {
        proof {
            lemma2_to64();
        }
        get_field_u32(self.0, Self::POSTDIV1_MASK, Self::POSTDIV1_OFFSET) as u8
    }

    /// ## Set the PLL2 POST Divider 1.
    ///
    /// A value wider than the field is truncated to it.
    #[must_use]
    pub fn set_postdiv1(self, postdiv1: u8) -> (reg: Self)
        ensures
            reg@ == with_field_u32(self@, Self::POSTDIV1_MASK, Self::POSTDIV1_OFFSET, postdiv1 as u32),
            field_u32(reg@, Self::POSTDIV1_MASK, Self::POSTDIV1_OFFSET) == (postdiv1 as u32) & 0x7,
            reg@ & !Self::POSTDIV1_MASK == self@ & !Self::POSTDIV1_MASK,
    {
        proof {
            lemma2_to64();
        }
        Self(set_field_u32(self.0, Self::POSTDIV1_MASK, Self::POSTDIV1_OFFSET, postdiv1 as u32))
    }

    /// ## Get the PLL2 POST Divider 2.
    ///
    /// This returns an `u8` with the PLL2 POST Divider 2.
    pub fn postdiv2(&self) -> (value: u8)
        ensures
            value == field_u32(self@, Self::POSTDIV2_MASK, Self::POSTDIV2_OFFSET),
            value <= 0x7,
    {
        proof {
            lemma2_to64();
        }
        get_field_u32(self.0, Self::POSTDIV2_MASK, Self::POSTDIV2_OFFSET) as u8
    }

    /// ## Set the PLL2 POST Divider 2.
    ///
    /// A value wider than the field is truncated to it.
    #[must_use]
    pub fn set_postdiv2(self, postdiv2: u8) -> (reg: Self)
        ensures
            reg@ == with_field_u32(self@, Self::POSTDIV2_MASK, Self::POSTDIV2_OFFSET, postdiv2 as u32),
            field_u32(reg@, Self::POSTDIV2_MASK, Self::POSTDIV2_OFFSET) == (postdiv2 as u32) & 0x7,
            reg@ & !Self::POSTDIV2_MASK == self@ & !Self::POSTDIV2_MASK,
    {
        proof {
            lemma2_to64();
        }
        Self(set_field_u32(self.0, Self::POSTDIV2_MASK, Self::POSTDIV2_OFFSET, postdiv2 as u32))
    }

    /// Whether the output frequency of the PLL can be computed from an input
    /// clock of `clki_hz` hertz: no divider of the register is zero, and the
    /// input clock times the feedback divider fits in 32 bits.
    pub open spec fn spec_frequency_defined(&self, clki_hz: u32) -> bool {
        pll_output_defined(
            clki_hz,
            field_u32(self@, Self::FBDIV_MASK, Self::FBDIV_OFFSET) as u16,
            field_u32(self@, Self::REFDIV_MASK, Self::REFDIV_OFFSET) as u8,
            field_u32(self@, Self::POSTDIV1_MASK, Self::POSTDIV1_OFFSET) as u8,
            field_u32(self@, Self::POSTDIV2_MASK, Self::POSTDIV2_OFFSET) as u8,
        )
    }

    /// The output frequency of the PLL in hertz, for an input clock of
    /// `clki_hz` hertz.
    pub open spec fn spec_frequency_hz(&self, clki_hz: u32) -> int {
        spec_pll_output_hz(
            clki_hz,
            field_u32(self@, Self::FBDIV_MASK, Self::FBDIV_OFFSET) as u16,
            field_u32(self@, Self::REFDIV_MASK, Self::REFDIV_OFFSET) as u8,
            field_u32(self@, Self::POSTDIV1_MASK, Self::POSTDIV1_OFFSET) as u8,
            field_u32(self@, Self::POSTDIV2_MASK, Self::POSTDIV2_OFFSET) as u8,
        )
    }

    /// ## Get the PLL2 Frequency.
    ///
    /// This returns the output frequency of the PLL for the input clock
    /// `clki_freq`: the input clock times the FB divider, over the product of
    /// the REF divider and the two POST dividers, rounded down.
    pub fn frequency(&self, clki_freq: HertzU32) -> (freq: HertzU32)
        requires
            self.spec_frequency_defined(hertz_raw(clki_freq)),
        ensures
            hertz_raw(freq) == self.spec_frequency_hz(hertz_raw(clki_freq)),
    {
        let clki_hz = hertz_to_raw(&clki_freq);
        hertz_from_raw(
            pll_output_hz(clki_hz, self.fbdiv(), self.refdiv(), self.postdiv1(), self.postdiv2()),
        )
    }

    /// ## Get the PLL2 Frequency, where it can be computed.
    ///
    /// This returns `None` where a divider of the register is zero or the
    /// input clock times the FB divider does not fit in 32 bits, and the
    /// frequency that `frequency` returns otherwise.
    pub fn checked_frequency(&self, clki_freq: HertzU32) -> (freq: Option<HertzU32>)
        ensures
            freq is Some <==> self.spec_frequency_defined(hertz_raw(clki_freq)),
            freq matches Some(f) ==> hertz_raw(f) == self.spec_frequency_hz(hertz_raw(clki_freq)),
    {
        let clki_hz = hertz_to_raw(&clki_freq);
        match checked_pll_output_hz(
            clki_hz,
            self.fbdiv(),
            self.refdiv(),
            self.postdiv1(),
            self.postdiv2(),
        ) {
            Some(_) => Some(self.frequency(clki_freq)),
            None => None,
        }
    }
}

/// # PLL3 Parameter register
///
/// Used to set PLL3 frequency.
#[derive(Debug, Copy, Clone, Eq, PartialEq, Hash, Structural)]
pub struct PLL3Parameter(u32);

impl View for PLL3Parameter {
    type V = u32;

    closed spec fn view(&self) -> u32 {
        self.0
    }
}

impl From<u32> for PLL3Parameter {
    fn from(val: u32) -> (reg: Self)
        ensures
            reg@ == val,
    {
        Self(val)
    }
}

impl vstd::std_specs::convert::FromSpecImpl<u32> for PLL3Parameter {
    open spec fn obeys_from_spec() -> bool {
        true
    }

    open spec fn from_spec(val: u32) -> Self {
        Self::spec_from_raw(val)
    }
}

impl From<PLL3Parameter> for u32 {
    fn from(val: PLL3Parameter) -> (raw: u32) {
        val.0
    }
}

impl vstd::std_specs::convert::FromSpecImpl<PLL3Parameter> for u32 {
    open spec fn obeys_from_spec() -> bool {
        true
    }

    open spec fn from_spec(val: PLL3Parameter) -> u32 {
        val@
    }
}

impl Default for PLL3Parameter {
    fn default() -> (reg: Self)
        ensures
            reg@ == Self::RESET,
    {
        Self(Self::RESET)
    }
}

impl Register for PLL3Parameter {
    open spec fn spec_addr(&self) -> u8 {
        Self::ADDR
    }

    open spec fn spec_val(&self) -> u32 {
        self@
    }

    closed spec fn spec_from_raw(raw: u32) -> Self {
        Self(raw)
    }

    fn addr(&self) -> (addr: u8) {
        Self::ADDR
    }

    fn val(&self) -> (val: u32) {
        self.0
    }

    proof fn lemma_raw_round_trip(raw: u32, reg: Self) {
    }
}

impl PLL3Parameter {
    /// ## PLL3 Parameter register address.
    pub const ADDR: u8 = 0x68;

    /// ## PLL3 Parameter register reset value.
    pub const RESET: u32 = 0x0070_0111;

    /// ## Bit offset for the `LOCKED` field.
    pub const LOCKED_OFFSET: u8 = 31;

    /// ## Bit offset for the `PLLEN` field.
    pub const PLLEN_OFFSET: u8 = 30;

    /// ## Bit offset for the `FBDIV` field.
    pub const FBDIV_OFFSET: u8 = 16;

    /// ## Bit offset for the `REFDIV` field.
    pub const REFDIV_OFFSET: u8 = 8;

    /// ## Bit offset for the `POSTDIV1` field.
    pub const POSTDIV1_OFFSET: u8 = 4;

    /// ## Bit offset for the `POSTDIV2` field.
    pub const POSTDIV2_OFFSET: u8 = 0;

    /// ## Bit mask for the `LOCKED` field.
    pub const LOCKED_MASK: u32 = 0x8000_0000;

    /// ## Bit mask for the `PLLEN` field.
    pub const PLLEN_MASK: u32 = 0x4000_0000;

    /// ## Bit mask for the `FBDIV` field.
    pub const FBDIV_MASK: u32 = 0x0fff_0000;

    /// ## Bit mask for the `REFDIV` field.
    pub const REFDIV_MASK: u32 = 0x0000_3f00;

    /// ## Bit mask for the `POSTDIV1` field.
    pub const POSTDIV1_MASK: u32 = 0x0000_0070;

    /// ## Bit mask for the `POSTDIV2` field.
    pub const POSTDIV2_MASK: u32 = 0x0000_0007;

    /// ## Get the PLL3 locked state.
    ///
    /// This returns an `bool` with the locked state.
    pub fn locked(&self) -> (on: bool)
        ensures
            on == flag_u32(self@, Self::LOCKED_MASK),
    {
        self.0 & Self::LOCKED_MASK == Self::LOCKED_MASK
    }

    /// ## Set the PLL3 locked state.
    #[must_use]
    pub fn lock(self) -> (reg: Self)
        ensures
            reg@ == with_flag_u32(self@, Self::LOCKED_MASK),
            flag_u32(reg@, Self::LOCKED_MASK),
            reg@ & !Self::LOCKED_MASK == self@ & !Self::LOCKED_MASK,
    {
        proof {
            lemma_flag_u32(self.0, Self::LOCKED_MASK);
        }
        Self(self.0 | Self::LOCKED_MASK)
    }

    /// ## Clear the PLL3 locked state.
    #[must_use]
    pub fn unlock(self) -> (reg: Self)
        ensures
            reg@ == without_flag_u32(self@, Self::LOCKED_MASK),
            !flag_u32(reg@, Self::LOCKED_MASK),
            reg@ & !Self::LOCKED_MASK == self@ & !Self::LOCKED_MASK,
    {
        proof {
            lemma_flag_u32(self.0, Self::LOCKED_MASK);
        }
        Self(self.0 & !Self::LOCKED_MASK)
    }

    /// ## Get the PLL3 enabled state.
    ///
    /// This returns an `bool` with the PLL enabled state.
    pub fn enabled(&self) -> (on: bool)
        ensures
            on == flag_u32(self@, Self::PLLEN_MASK),
    {
        self.0 & Self::PLLEN_MASK == Self::PLLEN_MASK
    }

    /// ## Enable the PLL3.
    #[must_use]
    pub fn enable(self) -> (reg: Self)
        ensures
            reg@ == with_flag_u32(self@, Self::PLLEN_MASK),
            flag_u32(reg@, Self::PLLEN_MASK),
            reg@ & !Self::PLLEN_MASK == self@ & !Self::PLLEN_MASK,
    {
        proof {
            lemma_flag_u32(self.0, Self::PLLEN_MASK);
        }
        Self(self.0 | Self::PLLEN_MASK)
    }

    /// ## Disable the PLL3.
    #[must_use]
    pub fn disable(self) -> (reg: Self)
        ensures
            reg@ == without_flag_u32(self@, Self::PLLEN_MASK),
            !flag_u32(reg@, Self::PLLEN_MASK),
            reg@ & !Self::PLLEN_MASK == self@ & !Self::PLLEN_MASK,
    {
        proof {
            lemma_flag_u32(self.0, Self::PLLEN_MASK);
        }
        Self(self.0 & !Self::PLLEN_MASK)
    }

    /// ## Get the PLL3 FB Divider.
    ///
    /// This returns an `u16` with the PLL3 FB Divider.
    pub fn fbdiv(&self) -> (value: u16)
        ensures
            value == field_u32(self@, Self::FBDIV_MASK, Self::FBDIV_OFFSET),
            value <= 0xfff,
    {
        proof {
            lemma2_to64();
        }
        get_field_u32(self.0, Self::FBDIV_MASK, Self::FBDIV_OFFSET) as u16
    }

    /// ## Set the PLL3 FB Divider.
    ///
    /// A value wider than the field is truncated to it.
    #[must_use]
    pub fn set_fbdiv(self, fbdiv: u16) -> (reg: Self)
        ensures
            reg@ == with_field_u32(self@, Self::FBDIV_MASK, Self::FBDIV_OFFSET, fbdiv as u32),
            field_u32(reg@, Self::FBDIV_MASK, Self::FBDIV_OFFSET) == (fbdiv as u32) & 0xfff,
            reg@ & !Self::FBDIV_MASK == self@ & !Self::FBDIV_MASK,
    {
        proof {
            lemma2_to64();
        }
        Self(set_field_u32(self.0, Self::FBDIV_MASK, Self::FBDIV_OFFSET, fbdiv as u32))
    }

    /// ## Get the PLL3 REF Divider.
    ///
    /// This returns an `u8` with the PLL3 REF Divider.
    pub fn refdiv(&self) -> (value: u8)
        ensures
            value == field_u32(self@, Self::REFDIV_MASK, Self::REFDIV_OFFSET),
            value <= 0x3f,
    {
        proof {
            lemma2_to64();
        }
        get_field_u32(self.0, Self::REFDIV_MASK, Self::REFDIV_OFFSET) as u8
    }

    /// ## Set the PLL3 REF Divider.
    ///
    /// A value wider than the field is truncated to it.
    #[must_use]
    pub fn set_refdiv(self, refdiv: u8) -> (reg: Self)
        ensures
            reg@ == with_field_u32(self@, Self::REFDIV_MASK, Self::REFDIV_OFFSET, refdiv as u32),
            field_u32(reg@, Self::REFDIV_MASK, Self::REFDIV_OFFSET) == (refdiv as u32) & 0x3f,
            reg@ & !Self::REFDIV_MASK == self@ & !Self::REFDIV_MASK,
    {
        proof {
            lemma2_to64();
        }
        Self(set_field_u32(self.0, Self::REFDIV_MASK, Self::REFDIV_OFFSET, refdiv as u32))
    }

    /// ## Get the PLL3 POST Divider 1.
    ///
    /// This returns an `u8` with the PLL3 POST Divider 1.
    pub fn postdiv1(&self) -> (value: u8)
        ensures
            value == field_u32(self@, Self::POSTDIV1_MASK, Self::POSTDIV1_OFFSET),
            value <= 0x7,
    {
        proof {
            lemma2_to64();
        }
        get_field_u32(self.0, Self::POSTDIV1_MASK, Self::POSTDIV1_OFFSET) as u8
    }

    /// ## Set the PLL3 POST Divider 1.
    ///
    /// A value wider than the field is truncated to it.
    #[must_use]
    pub fn set_postdiv1(self, postdiv1: u8) -> (reg: Self)
        ensures
            reg@ == with_field_u32(self@, Self::POSTDIV1_MASK, Self::POSTDIV1_OFFSET, postdiv1 as u32),
            field_u32(reg@, Self::POSTDIV1_MASK, Self::POSTDIV1_OFFSET) == (postdiv1 as u32) & 0x7,
            reg@ & !Self::POSTDIV1_MASK == self@ & !Self::POSTDIV1_MASK,
    {
        proof {
            lemma2_to64();
        }
        Self(set_field_u32(self.0, Self::POSTDIV1_MASK, Self::POSTDIV1_OFFSET, postdiv1 as u32))
    }

    /// ## Get the PLL3 POST Divider 2.
    ///
    /// This returns an `u8` with the PLL3 POST Divider 2.
    pub fn postdiv2(&self) -> (value: u8)
        ensures
            value == field_u32(self@, Self::POSTDIV2_MASK, Self::POSTDIV2_OFFSET),
            value <= 0x7,
    {
        proof {
            lemma2_to64();
        }
        get_field_u32(self.0, Self::POSTDIV2_MASK, Self::POSTDIV2_OFFSET) as u8
    }

    /// ## Set the PLL3 POST Divider 2.
    ///
    /// A value wider than the field is truncated to it.
    #[must_use]
    pub fn set_postdiv2(self, postdiv2: u8) -> (reg: Self)
        ensures
            reg@ == with_field_u32(self@, Self::POSTDIV2_MASK, Self::POSTDIV2_OFFSET, postdiv2 as u32),
            field_u32(reg@, Self::POSTDIV2_MASK, Self::POSTDIV2_OFFSET) == (postdiv2 as u32) & 0x7,
            reg@ & !Self::POSTDIV2_MASK == self@ & !Self::POSTDIV2_MASK,
    {
        proof {
            lemma2_to64();
        }
        Self(set_field_u32(self.0, Self::POSTDIV2_MASK, Self::POSTDIV2_OFFSET, postdiv2 as u32))
    }

    /// Whether the output frequency of the PLL can be computed from an input
    /// clock of `clki_hz` hertz: no divider of the register is zero, and the
    /// input clock times the feedback divider fits in 32 bits.
    pub open spec fn spec_frequency_defined(&self, clki_hz: u32) -> bool {
        pll_output_defined(
            clki_hz,
            field_u32(self@, Self::FBDIV_MASK, Self::FBDIV_OFFSET) as u16,
            field_u32(self@, Self::REFDIV_MASK, Self::REFDIV_OFFSET) as u8,
            field_u32(self@, Self::POSTDIV1_MASK, Self::POSTDIV1_OFFSET) as u8,
            field_u32(self@, Self::POSTDIV2_MASK, Self::POSTDIV2_OFFSET) as u8,
        )
    }

    /// The output frequency of the PLL in hertz, for an input clock of
    /// `clki_hz` hertz.
    pub open spec fn spec_frequency_hz(&self, clki_hz: u32) -> int {
        spec_pll_output_hz(
            clki_hz,
            field_u32(self@, Self::FBDIV_MASK, Self::FBDIV_OFFSET) as u16,
            field_u32(self@, Self::REFDIV_MASK, Self::REFDIV_OFFSET) as u8,
            field_u32(self@, Self::POSTDIV1_MASK, Self::POSTDIV1_OFFSET) as u8,
            field_u32(self@, Self::POSTDIV2_MASK, Self::POSTDIV2_OFFSET) as u8,
        )
    }

    /// ## Get the PLL3 Frequency.
    ///
    /// This returns the output frequency of the PLL for the input clock
    /// `clki_freq`: the input clock times the FB divider, over the product of
    /// the REF divider and the two POST dividers, rounded down.
    pub fn frequency(&self, clki_freq: HertzU32) -> (freq: HertzU32)
        requires
            self.spec_frequency_defined(hertz_raw(clki_freq)),
        ensures
            hertz_raw(freq) == self.spec_frequency_hz(hertz_raw(clki_freq)),
    {
        let clki_hz = hertz_to_raw(&clki_freq);
        hertz_from_raw(
            pll_output_hz(clki_hz, self.fbdiv(), self.refdiv(), self.postdiv1(), self.postdiv2()),
        )
    }

    /// ## Get the PLL3 Frequency, where it can be computed.
    ///
    /// This returns `None` where a divider of the register is zero or the
    /// input clock times the FB divider does not fit in 32 bits, and the
    /// frequency that `frequency` returns otherwise.
    pub fn checked_frequency(&self, clki_freq: HertzU32) -> (freq: Option<HertzU32>)
        ensures
            freq is Some <==> self.spec_frequency_defined(hertz_raw(clki_freq)),
            freq matches Some(f) ==> hertz_raw(f) == self.spec_frequency_hz(hertz_raw(clki_freq)),
    {
        let clki_hz = hertz_to_raw(&clki_freq);
        match checked_pll_output_hz(
            clki_hz,
            self.fbdiv(),
            self.refdiv(),
            self.postdiv1(),
            self.postdiv2(),
        ) {
            Some(_) => Some(self.frequency(clki_freq)),
            None => None,
        }
    }
}

/// # Ordered Clock Monitor register
#[derive(Debug, Copy, Clone, Eq, PartialEq, Hash, Structural)]
pub struct OrderedClockMonitor(u32);

impl View for OrderedClockMonitor {
    type V = u32;

    closed spec fn view(&self) -> u32 {
        self.0
    }
}

impl From<u32> for OrderedClockMonitor {
    fn from(val: u32) -> (reg: Self)
        ensures
            reg@ == val,
    {
        Self(val)
    }
}

impl vstd::std_specs::convert::FromSpecImpl<u32> for OrderedClockMonitor {
    open spec fn obeys_from_spec() -> bool {
        true
    }

    open spec fn from_spec(val: u32) -> Self {
        Self::spec_from_raw(val)
    }
}

impl From<OrderedClockMonitor> for u32 {
    fn from(val: OrderedClockMonitor) -> (raw: u32) {
        val.0
    }
}

impl vstd::std_specs::convert::FromSpecImpl<OrderedClockMonitor> for u32 {
    open spec fn obeys_from_spec() -> bool {
        true
    }

    open spec fn from_spec(val: OrderedClockMonitor) -> u32 {
        val@
    }
}

impl Default for OrderedClockMonitor {
    fn default() -> (reg: Self)
        ensures
            reg@ == Self::RESET,
    {
        Self(Self::RESET)
    }
}

impl Register for OrderedClockMonitor {
    open spec fn spec_addr(&self) -> u8 {
        Self::ADDR
    }

    open spec fn spec_val(&self) -> u32 {
        self@
    }

    closed spec fn spec_from_raw(raw: u32) -> Self {
        Self(raw)
    }

    fn addr(&self) -> (addr: u8) {
        Self::ADDR
    }

    fn val(&self) -> (val: u32) {
        self.0
    }

    proof fn lemma_raw_round_trip(raw: u32, reg: Self) {
    }
}

impl OrderedClockMonitor {
    /// ## Ordered Clock Monitor register address.
    pub const ADDR: u8 = 0x6C;

    /// ## Ordered Clock Monitor register reset value.
    pub const RESET: u32 = 0x0000_0000;

    /// ## Bit offset for the `START` field.
    pub const START_OFFSET: u8 = 31;

    /// ## Bit offset for the `CLK_SEL` field.
    pub const CLK_SEL_OFFSET: u8 = 24;

    /// ## Bit offset for the `CLK_COUNT` field.
    pub const CLK_COUNT_OFFSET: u8 = 0;

    /// ## Bit mask for the `START` field.
    pub const START_MASK: u32 = 0x8000_0000;

    /// ## Bit mask for the `CLK_SEL` field.
    pub const CLK_SEL_MASK: u32 = 0x0f00_0000;

    /// ## Bit mask for the `CLK_COUNT` field.
    pub const CLK_COUNT_MASK: u32 = 0x0000_ffff;
}

/// # PLL0 Divider register
#[derive(Debug, Copy, Clone, Eq, PartialEq, Hash, Structural)]
pub struct PLL0Divider(u32);

impl View for PLL0Divider {
    type V = u32;

    closed spec fn view(&self) -> u32 {
        self.0
    }
}

impl From<u32> for PLL0Divider {
    fn from(val: u32) -> (reg: Self)
        ensures
            reg@ == val,
    {
        Self(val)
    }
}

impl vstd::std_specs::convert::FromSpecImpl<u32> for PLL0Divider {
    open spec fn obeys_from_spec() -> bool {
        true
    }

    open spec fn from_spec(val: u32) -> Self {
        Self::spec_from_raw(val)
    }
}

impl From<PLL0Divider> for u32 {
    fn from(val: PLL0Divider) -> (raw: u32) {
        val.0
    }
}

impl vstd::std_specs::convert::FromSpecImpl<PLL0Divider> for u32 {
    open spec fn obeys_from_spec() -> bool {
        true
    }

    open spec fn from_spec(val: PLL0Divider) -> u32 {
        val@
    }
}

impl Default for PLL0Divider {
    fn default() -> (reg: Self)
        ensures
            reg@ == Self::RESET,
    {
        Self(Self::RESET)
    }
}

impl Register for PLL0Divider {
    open spec fn spec_addr(&self) -> u8 {
        Self::ADDR
    }

    open spec fn spec_val(&self) -> u32 {
        self@
    }

    closed spec fn spec_from_raw(raw: u32) -> Self {
        Self(raw)
    }

    fn addr(&self) -> (addr: u8) {
        Self::ADDR
    }

    fn val(&self) -> (val: u32) {
        self.0
    }

    proof fn lemma_raw_round_trip(raw: u32, reg: Self) {
    }
}

impl PLL0Divider {
    /// ## PLL0 Divider register address.
    pub const ADDR: u8 = 0x70;

    /// ## PLL0 Divider register reset value.
    pub const RESET: u32 = 0x0304_0607;

    /// ## Bit offset for the `PLLDIV3` field.
    pub const PLLDIV3_OFFSET: u8 = 24;

    /// ## Bit offset for the `PLLDIV2` field.
    pub const PLLDIV2_OFFSET: u8 = 16;

    /// ## Bit offset for the `PLLDIV1` field.
    pub const PLLDIV1_OFFSET: u8 = 8;

    /// ## Bit offset for the `PLLDIV0` field.
    pub const PLLDIV0_OFFSET: u8 = 0;

    /// ## Bit mask for the `PLLDIV3` field.
    pub const PLLDIV3_MASK: u32 = 0x0f00_0000;

    /// ## Bit mask for the `PLLDIV2` field.
    pub const PLLDIV2_MASK: u32 = 0x000f_0000;

    /// ## Bit mask for the `PLLDIV1` field.
    pub const PLLDIV1_MASK: u32 = 0x0000_0f00;

    /// ## Bit mask for the `PLLDIV0` field.
    pub const PLLDIV0_MASK: u32 = 0x0000_000f;
}

/// # PLL1 Divider register
#[derive(Debug, Copy, Clone, Eq, PartialEq, Hash, Structural)]
pub struct PLL1Divider(u32);

impl View for PLL1Divider {
    type V = u32;

    closed spec fn view(&self) -> u32 {
        self.0
    }
}

impl From<u32> for PLL1Divider {
    fn from(val: u32) -> (reg: Self)
        ensures
            reg@ == val,
    {
        Self(val)
    }
}

impl vstd::std_specs::convert::FromSpecImpl<u32> for PLL1Divider {
    open spec fn obeys_from_spec() -> bool {
        true
    }

    open spec fn from_spec(val: u32) -> Self {
        Self::spec_from_raw(val)
    }
}

impl From<PLL1Divider> for u32 {
    fn from(val: PLL1Divider) -> (raw: u32) {
        val.0
    }
}

impl vstd::std_specs::convert::FromSpecImpl<PLL1Divider> for u32 {
    open spec fn obeys_from_spec() -> bool {
        true
    }

    open spec fn from_spec(val: PLL1Divider) -> u32 {
        val@
    }
}

impl Default for PLL1Divider {
    fn default() -> (reg: Self)
        ensures
            reg@ == Self::RESET,
    {
        Self(Self::RESET)
    }
}

impl Register for PLL1Divider {
    open spec fn spec_addr(&self) -> u8 {
        Self::ADDR
    }

    open spec fn spec_val(&self) -> u32 {
        self@
    }

    closed spec fn spec_from_raw(raw: u32) -> Self {
        Self(raw)
    }

    fn addr(&self) -> (addr: u8) {
        Self::ADDR
    }

    fn val(&self) -> (val: u32) {
        self.0
    }

    proof fn lemma_raw_round_trip(raw: u32, reg: Self) {
    }
}

impl PLL1Divider {
    /// ## PLL1 Divider register address.
    pub const ADDR: u8 = 0x74;

    /// ## PLL1 Divider register reset value.
    pub const RESET: u32 = 0x0304_0506;

    /// ## Bit offset for the `PLLDIV3` field.
    pub const PLLDIV3_OFFSET: u8 = 24;

    /// ## Bit offset for the `PLLDIV2` field.
    pub const PLLDIV2_OFFSET: u8 = 16;

    /// ## Bit offset for the `PLLDIV1` field.
    pub const PLLDIV1_OFFSET: u8 = 8;

    /// ## Bit offset for the `PLLDIV0` field.
    pub const PLLDIV0_OFFSET: u8 = 0;

    /// ## Bit mask for the `PLLDIV3` field.
    pub const PLLDIV3_MASK: u32 = 0x0f00_0000;

    /// ## Bit mask for the `PLLDIV2` field.
    pub const PLLDIV2_MASK: u32 = 0x000f_0000;

    /// ## Bit mask for the `PLLDIV1` field.
    pub const PLLDIV1_MASK: u32 = 0x0000_0f00;

    /// ## Bit mask for the `PLLDIV0` field.
    pub const PLLDIV0_MASK: u32 = 0x0000_000f;
}

/// # PLL2 Divider register
#[derive(Debug, Copy, Clone, Eq, PartialEq, Hash, Structural)]
pub struct PLL2Divider(u32);

impl View for PLL2Divider {
    type V = u32;

    closed spec fn view(&self) -> u32 {
        self.0
    }
}

impl From<u32> for PLL2Divider {
    fn from(val: u32) -> (reg: Self)
        ensures
            reg@ == val,
    {
        Self(val)
    }
}

impl vstd::std_specs::convert::FromSpecImpl<u32> for PLL2Divider {
    open spec fn obeys_from_spec() -> bool {
        true
    }

    open spec fn from_spec(val: u32) -> Self {
        Self::spec_from_raw(val)
    }
}

impl From<PLL2Divider> for u32 {
    fn from(val: PLL2Divider) -> (raw: u32) {
        val.0
    }
}

impl vstd::std_specs::convert::FromSpecImpl<PLL2Divider> for u32 {
    open spec fn obeys_from_spec() -> bool {
        true
    }

    open spec fn from_spec(val: PLL2Divider) -> u32 {
        val@
    }
}

impl Default for PLL2Divider {
    fn default() -> (reg: Self)
        ensures
            reg@ == Self::RESET,
    {
        Self(Self::RESET)
    }
}

impl Register for PLL2Divider {
    open spec fn spec_addr(&self) -> u8 {
        Self::ADDR
    }

    open spec fn spec_val(&self) -> u32 {
        self@
    }

    closed spec fn spec_from_raw(raw: u32) -> Self {
        Self(raw)
    }

    fn addr(&self) -> (addr: u8) {
        Self::ADDR
    }

    fn val(&self) -> (val: u32) {
        self.0
    }

    proof fn lemma_raw_round_trip(raw: u32, reg: Self) {
    }
}

impl PLL2Divider {
    /// ## PLL2 Divider register address.
    pub const ADDR: u8 = 0x78;

    /// ## PLL2 Divider register reset value.
    pub const RESET: u32 = 0x0304_0506;

    /// ## Bit offset for the `PLLDIV3` field.
    pub const PLLDIV3_OFFSET: u8 = 24;

    /// ## Bit offset for the `PLLDIV2` field.
    pub const PLLDIV2_OFFSET: u8 = 16;

    /// ## Bit offset for the `PLLDIV1` field.
    pub const PLLDIV1_OFFSET: u8 = 8;

    /// ## Bit offset for the `PLLDIV0` field.
    pub const PLLDIV0_OFFSET: u8 = 0;

    /// ## Bit mask for the `PLLDIV3` field.
    pub const PLLDIV3_MASK: u32 = 0x0f00_0000;

    /// ## Bit mask for the `PLLDIV2` field.
    pub const PLLDIV2_MASK: u32 = 0x000f_0000;

    /// ## Bit mask for the `PLLDIV1` field.
    pub const PLLDIV1_MASK: u32 = 0x0000_0f00;

    /// ## Bit mask for the `PLLDIV0` field.
    pub const PLLDIV0_MASK: u32 = 0x0000_000f;
}

/// # PLL3 Divider register
#[derive(Debug, Copy, Clone, Eq, PartialEq, Hash, Structural)]
pub struct PLL3Divider(u32);

impl View for PLL3Divider {
    type V = u32;

    closed spec fn view(&self) -> u32 {
        self.0
    }
}

impl From<u32> for PLL3Divider {
    fn from(val: u32) -> (reg: Self)
        ensures
            reg@ == val,
    {
        Self(val)
    }
}

impl vstd::std_specs::convert::FromSpecImpl<u32> for PLL3Divider {
    open spec fn obeys_from_spec() -> bool {
        true
    }

    open spec fn from_spec(val: u32) -> Self {
        Self::spec_from_raw(val)
    }
}

impl From<PLL3Divider> for u32 {
    fn from(val: PLL3Divider) -> (raw: u32) {
        val.0
    }
}

impl vstd::std_specs::convert::FromSpecImpl<PLL3Divider> for u32 {
    open spec fn obeys_from_spec() -> bool {
        true
    }

    open spec fn from_spec(val: PLL3Divider) -> u32 {
        val@
    }
}

impl Default for PLL3Divider {
    fn default() -> (reg: Self)
        ensures
            reg@ == Self::RESET,
    {
        Self(Self::RESET)
    }
}

impl Register for PLL3Divider {
    open spec fn spec_addr(&self) -> u8 {
        Self::ADDR
    }

    open spec fn spec_val(&self) -> u32 {
        self@
    }

    closed spec fn spec_from_raw(raw: u32) -> Self {
        Self(raw)
    }

    fn addr(&self) -> (addr: u8) {
        Self::ADDR
    }

    fn val(&self) -> (val: u32) {
        self.0
    }

    proof fn lemma_raw_round_trip(raw: u32, reg: Self) {
    }
}

impl PLL3Divider {
    /// ## PLL3 Divider register address.
    pub const ADDR: u8 = 0x7C;

    /// ## PLL3 Divider register reset value.
    pub const RESET: u32 = 0x0304_0506;

    /// ## Bit offset for the `PLLDIV3` field.
    pub const PLLDIV3_OFFSET: u8 = 24;

    /// ## Bit offset for the `PLLDIV2` field.
    pub const PLLDIV2_OFFSET: u8 = 16;

    /// ## Bit offset for the `PLLDIV1` field.
    pub const PLLDIV1_OFFSET: u8 = 8;

    /// ## Bit offset for the `PLLDIV0` field.
    pub const PLLDIV0_OFFSET: u8 = 0;

    /// ## Bit mask for the `PLLDIV3` field.
    pub const PLLDIV3_MASK: u32 = 0x0f00_0000;

    /// ## Bit mask for the `PLLDIV2` field.
    pub const PLLDIV2_MASK: u32 = 0x000f_0000;

    /// ## Bit mask for the `PLLDIV1` field.
    pub const PLLDIV1_MASK: u32 = 0x0000_0f00;

    /// ## Bit mask for the `PLLDIV0` field.
    pub const PLLDIV0_MASK: u32 = 0x0000_000f;
}

/// # Clock Order Control 0 register
///
/// Holds the clock select of the clocks 0 to 7, four bits each.
#[derive(Debug, Copy, Clone, Eq, PartialEq, Structural)]
pub struct ClockOrderControl0(u32);

impl View for ClockOrderControl0 {
    type V = u32;

    closed spec fn view(&self) -> u32 {
        self.0
    }
}

impl From<u32> for ClockOrderControl0 {
    fn from(val: u32) -> (reg: Self)
        ensures
            reg@ == val,
    {
        Self(val)
    }
}

impl vstd::std_specs::convert::FromSpecImpl<u32> for ClockOrderControl0 {
    open spec fn obeys_from_spec() -> bool {
        true
    }

    open spec fn from_spec(val: u32) -> Self {
        Self::spec_from_raw(val)
    }
}

impl From<ClockOrderControl0> for u32 {
    fn from(val: ClockOrderControl0) -> (raw: u32) {
        val.0
    }
}

impl vstd::std_specs::convert::FromSpecImpl<ClockOrderControl0> for u32 {
    open spec fn obeys_from_spec() -> bool {
        true
    }

    open spec fn from_spec(val: ClockOrderControl0) -> u32 {
        val@
    }
}

impl Default for ClockOrderControl0 {
    fn default() -> (reg: Self)
        ensures
            reg@ == Self::RESET,
    {
        Self(Self::RESET)
    }
}

impl Register for ClockOrderControl0 {
    open spec fn spec_addr(&self) -> u8 {
        Self::ADDR
    }

    open spec fn spec_val(&self) -> u32 {
        self@
    }

    closed spec fn spec_from_raw(raw: u32) -> Self {
        Self(raw)
    }

    fn addr(&self) -> (addr: u8) {
        Self::ADDR
    }

    fn val(&self) -> (val: u32) {
        self.0
    }

    proof fn lemma_raw_round_trip(raw: u32, reg: Self) {
    }
}

impl ClockOrderControl0 {
    /// ## Clock Order Control 0 register address.
    pub const ADDR: u8 = 0x80;

    /// ## Clock Order Control 0 register reset value.
    pub const RESET: u32 = 0xd95c_8410;

    /// ## Bit length of each `CLKN_SEL` field.
    pub const CLKN_SEL_LENGTH: u8 = 4;

    /// ## Bit mask of a `CLKN_SEL` field, before it is moved to its clock.
    pub const CLKN_SEL_MASK: u32 = 0xF;

    /// ## Get the clock select of one clock.
    ///
    /// `clock` counts from the first clock of this register: clock `clock` is
    /// CLK0 for 0 and CLK7 for 7. A `clock` above 7 comes back as the error,
    /// and so does a field that encodes no `ClockSelect`.
    pub fn clock_select(&self, clock: u8) -> (sel: Result<ClockSelect, u8>)
        ensures
            clock > 7 ==> sel == Err::<ClockSelect, u8>(clock),
            clock <= 7 ==> sel == ClockSelect::spec_from_raw(spec_clock_select_raw(self@, clock)),
    {
        if clock > 7 {
            return Err(clock);
        }
        ClockSelect::from_raw(clock_select_raw(self.0, clock))
    }

    /// ## Set the clock select of one clock.
    ///
    /// `clock` counts as in `clock_select`; for a `clock` above 7 the register
    /// is returned unchanged.
    #[must_use]
    pub fn set_clock_select(self, clock: u8, clock_select: ClockSelect) -> (reg: Self)
        ensures
            clock < 8 ==> reg@ == spec_with_clock_select_raw(self@, clock, clock_select.spec_raw()),
            clock < 8 ==> spec_clock_select_raw(reg@, clock) == clock_select.spec_raw(),
            clock < 8 ==> reg@ & !spec_clock_select_mask(clock) == self@ & !spec_clock_select_mask(
                clock,
            ),
            clock >= 8 ==> reg == self,
    {
        if clock < 8 {
            Self(with_clock_select_raw(self.0, clock, u8::from(clock_select)))
        } else {
            self
        }
    }
}

/// # Clock Order Control 1 register
///
/// Holds the clock select of the clocks 8 to 15, four bits each.
#[derive(Debug, Copy, Clone, Eq, PartialEq, Structural)]
pub struct ClockOrderControl1(u32);

impl View for ClockOrderControl1 {
    type V = u32;

    closed spec fn view(&self) -> u32 {
        self.0
    }
}

impl From<u32> for ClockOrderControl1 {
    fn from(val: u32) -> (reg: Self)
        ensures
            reg@ == val,
    {
        Self(val)
    }
}

impl vstd::std_specs::convert::FromSpecImpl<u32> for ClockOrderControl1 {
    open spec fn obeys_from_spec() -> bool {
        true
    }

    open spec fn from_spec(val: u32) -> Self {
        Self::spec_from_raw(val)
    }
}

impl From<ClockOrderControl1> for u32 {
    fn from(val: ClockOrderControl1) -> (raw: u32) {
        val.0
    }
}

impl vstd::std_specs::convert::FromSpecImpl<ClockOrderControl1> for u32 {
    open spec fn obeys_from_spec() -> bool {
        true
    }

    open spec fn from_spec(val: ClockOrderControl1) -> u32 {
        val@
    }
}

impl Default for ClockOrderControl1 {
    fn default() -> (reg: Self)
        ensures
            reg@ == Self::RESET,
    {
        Self(Self::RESET)
    }
}

impl Register for ClockOrderControl1 {
    open spec fn spec_addr(&self) -> u8 {
        Self::ADDR
    }

    open spec fn spec_val(&self) -> u32 {
        self@
    }

    closed spec fn spec_from_raw(raw: u32) -> Self {
        Self(raw)
    }

    fn addr(&self) -> (addr: u8) {
        Self::ADDR
    }

    fn val(&self) -> (val: u32) {
        self.0
    }

    proof fn lemma_raw_round_trip(raw: u32, reg: Self) {
    }
}

impl ClockOrderControl1 {
    /// ## Clock Order Control 1 register address.
    pub const ADDR: u8 = 0x84;

    /// ## Clock Order Control 1 register reset value.
    pub const RESET: u32 = 0xfb73_ea62;

    /// ## Bit length of each `CLKN_SEL` field.
    pub const CLKN_SEL_LENGTH: u8 = 4;

    /// ## Bit mask of a `CLKN_SEL` field, before it is moved to its clock.
    pub const CLKN_SEL_MASK: u32 = 0xF;

    /// ## Get the clock select of one clock.
    ///
    /// `clock` counts from the first clock of this register: clock `clock` is
    /// CLK8 for 0 and CLK15 for 7. A `clock` above 7 comes back as the error,
    /// and so does a field that encodes no `ClockSelect`.
    pub fn clock_select(&self, clock: u8) -> (sel: Result<ClockSelect, u8>)
        ensures
            clock > 7 ==> sel == Err::<ClockSelect, u8>(clock),
            clock <= 7 ==> sel == ClockSelect::spec_from_raw(spec_clock_select_raw(self@, clock)),
    {
        if clock > 7 {
            return Err(clock);
        }
        ClockSelect::from_raw(clock_select_raw(self.0, clock))
    }

    /// ## Set the clock select of one clock.
    ///
    /// `clock` counts as in `clock_select`; for a `clock` above 7 the register
    /// is returned unchanged.
    #[must_use]
    pub fn set_clock_select(self, clock: u8, clock_select: ClockSelect) -> (reg: Self)
        ensures
            clock < 8 ==> reg@ == spec_with_clock_select_raw(self@, clock, clock_select.spec_raw()),
            clock < 8 ==> spec_clock_select_raw(reg@, clock) == clock_select.spec_raw(),
            clock < 8 ==> reg@ & !spec_clock_select_mask(clock) == self@ & !spec_clock_select_mask(
                clock,
            ),
            clock >= 8 ==> reg == self,
    {
        if clock < 8 {
            Self(with_clock_select_raw(self.0, clock, u8::from(clock_select)))
        } else {
            self
        }
    }
}

/// # Clock Order Status register
#[derive(Debug, Copy, Clone, Eq, PartialEq, Hash, Structural)]
pub struct ClockOrderStatus(u32);

impl View for ClockOrderStatus {
    type V = u32;

    closed spec fn view(&self) -> u32 {
        self.0
    }
}

impl From<u32> for ClockOrderStatus {
    fn from(val: u32) -> (reg: Self)
        ensures
            reg@ == val,
    {
        Self(val)
    }
}

impl vstd::std_specs::convert::FromSpecImpl<u32> for ClockOrderStatus {
    open spec fn obeys_from_spec() -> bool {
        true
    }

    open spec fn from_spec(val: u32) -> Self {
        Self::spec_from_raw(val)
    }
}

impl From<ClockOrderStatus> for u32 {
    fn from(val: ClockOrderStatus) -> (raw: u32) {
        val.0
    }
}

impl vstd::std_specs::convert::FromSpecImpl<ClockOrderStatus> for u32 {
    open spec fn obeys_from_spec() -> bool {
        true
    }

    open spec fn from_spec(val: ClockOrderStatus) -> u32 {
        val@
    }
}

impl Default for ClockOrderStatus {
    fn default() -> (reg: Self)
        ensures
            reg@ == Self::RESET,
    {
        Self(Self::RESET)
    }
}

impl Register for ClockOrderStatus {
    open spec fn spec_addr(&self) -> u8 {
        Self::ADDR
    }

    open spec fn spec_val(&self) -> u32 {
        self@
    }

    closed spec fn spec_from_raw(raw: u32) -> Self {
        Self(raw)
    }

    fn addr(&self) -> (addr: u8) {
        Self::ADDR
    }

    fn val(&self) -> (val: u32) {
        self.0
    }

    proof fn lemma_raw_round_trip(raw: u32, reg: Self) {
    }
}

impl ClockOrderStatus {
    /// ## Clock Order Status register address.
    pub const ADDR: u8 = 0x8C;

    /// ## Clock Order Status register reset value.
    pub const RESET: u32 = 0x0000_0000;

    /// ## Bit offset for the `CLOK_ORDER_STATUS` field.
    pub const CLOK_ORDER_STATUS_OFFSET: u8 = 0;

    /// ## Bit mask for the `CLOK_ORDER_STATUS` field.
    pub const CLOK_ORDER_STATUS_MASK: u32 = 0xffff_ffff;
}

/// # Frequency Sweep Control 1 register
#[derive(Debug, Copy, Clone, Eq, PartialEq, Hash, Structural)]
pub struct FrequencySweepControl1(u32);

impl View for FrequencySweepControl1 {
    type V = u32;

    closed spec fn view(&self) -> u32 {
        self.0
    }
}

impl From<u32> for FrequencySweepControl1 {
    fn from(val: u32) -> (reg: Self)
        ensures
            reg@ == val,
    {
        Self(val)
    }
}

impl vstd::std_specs::convert::FromSpecImpl<u32> for FrequencySweepControl1 {
    open spec fn obeys_from_spec() -> bool {
        true
    }

    open spec fn from_spec(val: u32) -> Self {
        Self::spec_from_raw(val)
    }
}

impl From<FrequencySweepControl1> for u32 {
    fn from(val: FrequencySweepControl1) -> (raw: u32) {
        val.0
    }
}

impl vstd::std_specs::convert::FromSpecImpl<FrequencySweepControl1> for u32 {
    open spec fn obeys_from_spec() -> bool {
        true
    }

    open spec fn from_spec(val: FrequencySweepControl1) -> u32 {
        val@
    }
}

impl Default for FrequencySweepControl1 {
    fn default() -> (reg: Self)
        ensures
            reg@ == Self::RESET,
    {
        Self(Self::RESET)
    }
}

impl Register for FrequencySweepControl1 {
    open spec fn spec_addr(&self) -> u8 {
        Self::ADDR
    }

    open spec fn spec_val(&self) -> u32 {
        self@
    }

    closed spec fn spec_from_raw(raw: u32) -> Self {
        Self(raw)
    }

    fn addr(&self) -> (addr: u8) {
        Self::ADDR
    }

    fn val(&self) -> (val: u32) {
        self.0
    }

    proof fn lemma_raw_round_trip(raw: u32, reg: Self) {
    }
}

impl FrequencySweepControl1 {
    /// ## Frequency Sweep Control 1 register address.
    pub const ADDR: u8 = 0x90;

    /// ## Frequency Sweep Control 1 register reset value.
    pub const RESET: u32 = 0x0000_0070;

    /// ## Bit offset for the `SWEEP_STATE` field.
    pub const SWEEP_STATE_OFFSET: u8 = 24;

    /// ## Bit mask for the `SWEEP_STATE` field.
    pub const SWEEP_STATE_MASK: u32 = 0x0700_0000;
}

/// # Golden Nonce For Sweep Return register
#[derive(Debug, Copy, Clone, Eq, PartialEq, Hash, Structural)]
pub struct GoldenNonceForSweepReturn(u32);

impl View for GoldenNonceForSweepReturn {
    type V = u32;

    closed spec fn view(&self) -> u32 {
        self.0
    }
}

impl From<u32> for GoldenNonceForSweepReturn {
    fn from(val: u32) -> (reg: Self)
        ensures
            reg@ == val,
    {
        Self(val)
    }
}

impl vstd::std_specs::convert::FromSpecImpl<u32> for GoldenNonceForSweepReturn {
    open spec fn obeys_from_spec() -> bool {
        true
    }

    open spec fn from_spec(val: u32) -> Self {
        Self::spec_from_raw(val)
    }
}

impl From<GoldenNonceForSweepReturn> for u32 {
    fn from(val: GoldenNonceForSweepReturn) -> (raw: u32) {
        val.0
    }
}

impl vstd::std_specs::convert::FromSpecImpl<GoldenNonceForSweepReturn> for u32 {
    open spec fn obeys_from_spec() -> bool {
        true
    }

    open spec fn from_spec(val: GoldenNonceForSweepReturn) -> u32 {
        val@
    }
}

impl Default for GoldenNonceForSweepReturn {
    fn default() -> (reg: Self)
        ensures
            reg@ == Self::RESET,
    {
        Self(Self::RESET)
    }
}

impl Register for GoldenNonceForSweepReturn {
    open spec fn spec_addr(&self) -> u8 {
        Self::ADDR
    }

    open spec fn spec_val(&self) -> u32 {
        self@
    }

    closed spec fn spec_from_raw(raw: u32) -> Self {
        Self(raw)
    }

    fn addr(&self) -> (addr: u8) {
        Self::ADDR
    }

    fn val(&self) -> (val: u32) {
        self.0
    }

    proof fn lemma_raw_round_trip(raw: u32, reg: Self) {
    }
}

impl GoldenNonceForSweepReturn {
    /// ## Golden Nonce For Sweep Return register address.
    pub const ADDR: u8 = 0x94;

    /// ## Golden Nonce For Sweep Return register reset value.
    pub const RESET: u32 = 0x0037_6400;

    /// ## Bit offset for the `GNOSWR` field.
    pub const GNOSWR_OFFSET: u8 = 0;

    /// ## Bit mask for the `GNOSWR` field.
    pub const GNOSWR_MASK: u32 = 0xffff_ffff;
}

/// # Returned Group Pattern Status register
#[derive(Debug, Copy, Clone, Eq, PartialEq, Hash, Structural)]
pub struct ReturnedGroupPatternStatus(u32);

impl View for ReturnedGroupPatternStatus {
    type V = u32;

    closed spec fn view(&self) -> u32 {
        self.0
    }
}

impl From<u32> for ReturnedGroupPatternStatus {
    fn from(val: u32) -> (reg: Self)
        ensures
            reg@ == val,
    {
        Self(val)
    }
}

impl vstd::std_specs::convert::FromSpecImpl<u32> for ReturnedGroupPatternStatus {
    open spec fn obeys_from_spec() -> bool {
        true
    }

    open spec fn from_spec(val: u32) -> Self {
        Self::spec_from_raw(val)
    }
}

impl From<ReturnedGroupPatternStatus> for u32 {
    fn from(val: ReturnedGroupPatternStatus) -> (raw: u32) {
        val.0
    }
}

impl vstd::std_specs::convert::FromSpecImpl<ReturnedGroupPatternStatus> for u32 {
    open spec fn obeys_from_spec() -> bool {
        true
    }

    open spec fn from_spec(val: ReturnedGroupPatternStatus) -> u32 {
        val@
    }
}

impl Default for ReturnedGroupPatternStatus {
    fn default() -> (reg: Self)
        ensures
            reg@ == Self::RESET,
    {
        Self(Self::RESET)
    }
}

impl Register for ReturnedGroupPatternStatus {
    open spec fn spec_addr(&self) -> u8 {
        Self::ADDR
    }

    open spec fn spec_val(&self) -> u32 {
        self@
    }

    closed spec fn spec_from_raw(raw: u32) -> Self {
        Self(raw)
    }

    fn addr(&self) -> (addr: u8) {
        Self::ADDR
    }

    fn val(&self) -> (val: u32) {
        self.0
    }

    proof fn lemma_raw_round_trip(raw: u32, reg: Self) {
    }
}

impl ReturnedGroupPatternStatus {
    /// ## Returned Group Pattern Status register address.
    pub const ADDR: u8 = 0x98;

    /// ## Returned Group Pattern Status register reset value.
    pub const RESET: u32 = 0x3030_3030;

    /// ## Bit offset for the `RGPS3` field.
    pub const RGPS3_OFFSET: u8 = 24;

    /// ## Bit offset for the `RGPS2` field.
    pub const RGPS2_OFFSET: u8 = 16;

    /// ## Bit offset for the `RGPS1` field.
    pub const RGPS1_OFFSET: u8 = 8;

    /// ## Bit offset for the `RGPS0` field.
    pub const RGPS0_OFFSET: u8 = 0;

    /// ## Bit mask for the `RGPS3` field.
    pub const RGPS3_MASK: u32 = 0x0f00_0000;

    /// ## Bit mask for the `RGPS2` field.
    pub const RGPS2_MASK: u32 = 0x000f_0000;

    /// ## Bit mask for the `RGPS1` field.
    pub const RGPS1_MASK: u32 = 0x0000_0f00;

    /// ## Bit mask for the `RGPS0` field.
    pub const RGPS0_MASK: u32 = 0x0000_000f;
}

/// # Nonce Returned Timeout register
#[derive(Debug, Copy, Clone, Eq, PartialEq, Hash, Structural)]
pub struct NonceReturnedTimeout(u32);

impl View for NonceReturnedTimeout {
    type V = u32;

    closed spec fn view(&self) -> u32 {
        self.0
    }
}

impl From<u32> for NonceReturnedTimeout {
    fn from(val: u32) -> (reg: Self)
        ensures
            reg@ == val,
    {
        Self(val)
    }
}

impl vstd::std_specs::convert::FromSpecImpl<u32> for NonceReturnedTimeout {
    open spec fn obeys_from_spec() -> bool {
        true
    }

    open spec fn from_spec(val: u32) -> Self {
        Self::spec_from_raw(val)
    }
}

impl From<NonceReturnedTimeout> for u32 {
    fn from(val: NonceReturnedTimeout) -> (raw: u32) {
        val.0
    }
}

impl vstd::std_specs::convert::FromSpecImpl<NonceReturnedTimeout> for u32 {
    open spec fn obeys_from_spec() -> bool {
        true
    }

    open spec fn from_spec(val: NonceReturnedTimeout) -> u32 {
        val@
    }
}

impl Default for NonceReturnedTimeout {
    fn default() -> (reg: Self)
        ensures
            reg@ == Self::RESET,
    {
        Self(Self::RESET)
    }
}

impl Register for NonceReturnedTimeout {
    open spec fn spec_addr(&self) -> u8 {
        Self::ADDR
    }

    open spec fn spec_val(&self) -> u32 {
        self@
    }

    closed spec fn spec_from_raw(raw: u32) -> Self {
        Self(raw)
    }

    fn addr(&self) -> (addr: u8) {
        Self::ADDR
    }

    fn val(&self) -> (val: u32) {
        self.0
    }

    proof fn lemma_raw_round_trip(raw: u32, reg: Self) {
    }
}

impl NonceReturnedTimeout {
    /// ## Nonce Returned Timeout register address.
    pub const ADDR: u8 = 0x9C;

    /// ## Nonce Returned Timeout register reset value.
    pub const RESET: u32 = 0x0000_ffff;

    /// ## Bit offset for the `SWEEP_TIMEOUT` field.
    pub const SWEEP_TIMEOUT_OFFSET: u8 = 0;

    /// ## Bit mask for the `SWEEP_TIMEOUT` field.
    pub const SWEEP_TIMEOUT_MASK: u32 = 0x0000_ffff;
}

/// # Returned Single Pattern Status register
#[derive(Debug, Copy, Clone, Eq, PartialEq, Hash, Structural)]
pub struct ReturnedSinglePatternStatus(u32);

impl View for ReturnedSinglePatternStatus {
    type V = u32;

    closed spec fn view(&self) -> u32 {
        self.0
    }
}

impl From<u32> for ReturnedSinglePatternStatus {
    fn from(val: u32) -> (reg: Self)
        ensures
            reg@ == val,
    {
        Self(val)
    }
}

impl vstd::std_specs::convert::FromSpecImpl<u32> for ReturnedSinglePatternStatus {
    open spec fn obeys_from_spec() -> bool {
        true
    }

    open spec fn from_spec(val: u32) -> Self {
        Self::spec_from_raw(val)
    }
}

impl From<ReturnedSinglePatternStatus> for u32 {
    fn from(val: ReturnedSinglePatternStatus) -> (raw: u32) {
        val.0
    }
}

impl vstd::std_specs::convert::FromSpecImpl<ReturnedSinglePatternStatus> for u32 {
    open spec fn obeys_from_spec() -> bool {
        true
    }

    open spec fn from_spec(val: ReturnedSinglePatternStatus) -> u32 {
        val@
    }
}

impl Default for ReturnedSinglePatternStatus {
    fn default() -> (reg: Self)
        ensures
            reg@ == Self::RESET,
    {
        Self(Self::RESET)
    }
}

impl Register for ReturnedSinglePatternStatus {
    open spec fn spec_addr(&self) -> u8 {
        Self::ADDR
    }

    open spec fn spec_val(&self) -> u32 {
        self@
    }

    closed spec fn spec_from_raw(raw: u32) -> Self {
        Self(raw)
    }

    fn addr(&self) -> (addr: u8) {
        Self::ADDR
    }

    fn val(&self) -> (val: u32) {
        self.0
    }

    proof fn lemma_raw_round_trip(raw: u32, reg: Self) {
    }
}

impl ReturnedSinglePatternStatus {
    /// ## Returned Single Pattern Status register address.
    pub const ADDR: u8 = 0xA0;

    /// ## Returned Single Pattern Status register reset value.
    pub const RESET: u32 = 0x0000_0000;

    /// ## Bit offset for the `RSPS` field.
    pub const RSPS_OFFSET: u8 = 0;

    /// ## Bit mask for the `RSPS` field.
    pub const RSPS_MASK: u32 = 0xffff_ffff;
}

/// A register of any type.
#[derive(Debug, PartialEq, Eq, Structural)]
pub enum Registers {
    ChipAddress(ChipAddress),
    HashRate(HashRate),
    PLL0Parameter(PLL0Parameter),
    ChipNonceOffset(ChipNonceOffset),
    HashCountingNumber(HashCountingNumber),
    TicketMask(TicketMask),
    MiscControl(MiscControl),
    I2CControl(I2CControl),
    OrderedClockEnable(OrderedClockEnable),
    FastUARTConfiguration(FastUARTConfiguration),
    UARTRelay(UARTRelay),
    TicketMask2(TicketMask2),
    CoreRegisterControl(CoreRegisterControl),
    CoreRegisterValue(CoreRegisterValue),
    ExternalTemperatureSensorRead(ExternalTemperatureSensorRead),
    ErrorFlag(ErrorFlag),
    NonceErrorCounter(NonceErrorCounter),
    NonceOverflowCounter(NonceOverflowCounter),
    AnalogMuxControl(AnalogMuxControl),
    IoDriverStrenghtConfiguration(IoDriverStrenghtConfiguration),
    TimeOut(TimeOut),
    PLL1Parameter(PLL1Parameter),
    PLL2Parameter(PLL2Parameter),
    PLL3Parameter(PLL3Parameter),
    OrderedClockMonitor(OrderedClockMonitor),
    PLL0Divider(PLL0Divider),
    PLL1Divider(PLL1Divider),
    PLL2Divider(PLL2Divider),
    PLL3Divider(PLL3Divider),
    ClockOrderControl0(ClockOrderControl0),
    ClockOrderControl1(ClockOrderControl1),
    ClockOrderStatus(ClockOrderStatus),
    FrequencySweepControl1(FrequencySweepControl1),
    GoldenNonceForSweepReturn(GoldenNonceForSweepReturn),
    ReturnedGroupPatternStatus(ReturnedGroupPatternStatus),
    NonceReturnedTimeout(NonceReturnedTimeout),
    ReturnedSinglePatternStatus(ReturnedSinglePatternStatus),
}

impl Registers {
    /// The address of the register.
    pub open spec fn spec_addr(&self) -> u8 {
        match self {
            Registers::ChipAddress(reg) => reg.spec_addr(),
            Registers::HashRate(reg) => reg.spec_addr(),
            Registers::PLL0Parameter(reg) => reg.spec_addr(),
            Registers::ChipNonceOffset(reg) => reg.spec_addr(),
            Registers::HashCountingNumber(reg) => reg.spec_addr(),
            Registers::TicketMask(reg) => reg.spec_addr(),
            Registers::MiscControl(reg) => reg.spec_addr(),
            Registers::I2CControl(reg) => reg.spec_addr(),
            Registers::OrderedClockEnable(reg) => reg.spec_addr(),
            Registers::FastUARTConfiguration(reg) => reg.spec_addr(),
            Registers::UARTRelay(reg) => reg.spec_addr(),
            Registers::TicketMask2(reg) => reg.spec_addr(),
            Registers::CoreRegisterControl(reg) => reg.spec_addr(),
            Registers::CoreRegisterValue(reg) => reg.spec_addr(),
            Registers::ExternalTemperatureSensorRead(reg) => reg.spec_addr(),
            Registers::ErrorFlag(reg) => reg.spec_addr(),
            Registers::NonceErrorCounter(reg) => reg.spec_addr(),
            Registers::NonceOverflowCounter(reg) => reg.spec_addr(),
            Registers::AnalogMuxControl(reg) => reg.spec_addr(),
            Registers::IoDriverStrenghtConfiguration(reg) => reg.spec_addr(),
            Registers::TimeOut(reg) => reg.spec_addr(),
            Registers::PLL1Parameter(reg) => reg.spec_addr(),
            Registers::PLL2Parameter(reg) => reg.spec_addr(),
            Registers::PLL3Parameter(reg) => reg.spec_addr(),
            Registers::OrderedClockMonitor(reg) => reg.spec_addr(),
            Registers::PLL0Divider(reg) => reg.spec_addr(),
            Registers::PLL1Divider(reg) => reg.spec_addr(),
            Registers::PLL2Divider(reg) => reg.spec_addr(),
            Registers::PLL3Divider(reg) => reg.spec_addr(),
            Registers::ClockOrderControl0(reg) => reg.spec_addr(),
            Registers::ClockOrderControl1(reg) => reg.spec_addr(),
            Registers::ClockOrderStatus(reg) => reg.spec_addr(),
            Registers::FrequencySweepControl1(reg) => reg.spec_addr(),
            Registers::GoldenNonceForSweepReturn(reg) => reg.spec_addr(),
            Registers::ReturnedGroupPatternStatus(reg) => reg.spec_addr(),
            Registers::NonceReturnedTimeout(reg) => reg.spec_addr(),
            Registers::ReturnedSinglePatternStatus(reg) => reg.spec_addr(),
        }
    }

    /// The raw value of the register.
    pub open spec fn spec_val(&self) -> u32 {
        match self {
            Registers::ChipAddress(reg) => reg.spec_val(),
            Registers::HashRate(reg) => reg.spec_val(),
            Registers::PLL0Parameter(reg) => reg.spec_val(),
            Registers::ChipNonceOffset(reg) => reg.spec_val(),
            Registers::HashCountingNumber(reg) => reg.spec_val(),
            Registers::TicketMask(reg) => reg.spec_val(),
            Registers::MiscControl(reg) => reg.spec_val(),
            Registers::I2CControl(reg) => reg.spec_val(),
            Registers::OrderedClockEnable(reg) => reg.spec_val(),
            Registers::FastUARTConfiguration(reg) => reg.spec_val(),
            Registers::UARTRelay(reg) => reg.spec_val(),
            Registers::TicketMask2(reg) => reg.spec_val(),
            Registers::CoreRegisterControl(reg) => reg.spec_val(),
            Registers::CoreRegisterValue(reg) => reg.spec_val(),
            Registers::ExternalTemperatureSensorRead(reg) => reg.spec_val(),
            Registers::ErrorFlag(reg) => reg.spec_val(),
            Registers::NonceErrorCounter(reg) => reg.spec_val(),
            Registers::NonceOverflowCounter(reg) => reg.spec_val(),
            Registers::AnalogMuxControl(reg) => reg.spec_val(),
            Registers::IoDriverStrenghtConfiguration(reg) => reg.spec_val(),
            Registers::TimeOut(reg) => reg.spec_val(),
            Registers::PLL1Parameter(reg) => reg.spec_val(),
            Registers::PLL2Parameter(reg) => reg.spec_val(),
            Registers::PLL3Parameter(reg) => reg.spec_val(),
            Registers::OrderedClockMonitor(reg) => reg.spec_val(),
            Registers::PLL0Divider(reg) => reg.spec_val(),
            Registers::PLL1Divider(reg) => reg.spec_val(),
            Registers::PLL2Divider(reg) => reg.spec_val(),
            Registers::PLL3Divider(reg) => reg.spec_val(),
            Registers::ClockOrderControl0(reg) => reg.spec_val(),
            Registers::ClockOrderControl1(reg) => reg.spec_val(),
            Registers::ClockOrderStatus(reg) => reg.spec_val(),
            Registers::FrequencySweepControl1(reg) => reg.spec_val(),
            Registers::GoldenNonceForSweepReturn(reg) => reg.spec_val(),
            Registers::ReturnedGroupPatternStatus(reg) => reg.spec_val(),
            Registers::NonceReturnedTimeout(reg) => reg.spec_val(),
            Registers::ReturnedSinglePatternStatus(reg) => reg.spec_val(),
        }
    }

    /// The register at the address `addr`, holding `raw`; none where no
    /// register has that address.
    pub open spec fn spec_resolve(addr: u8, raw: u32) -> Option<Registers> {
        if addr == ChipAddress::ADDR {
            Some(Registers::ChipAddress(ChipAddress::spec_from_raw(raw)))
        } else if addr == HashRate::ADDR {
            Some(Registers::HashRate(HashRate::spec_from_raw(raw)))
        } else if addr == PLL0Parameter::ADDR {
            Some(Registers::PLL0Parameter(PLL0Parameter::spec_from_raw(raw)))
        } else if addr == ChipNonceOffset::ADDR {
            Some(Registers::ChipNonceOffset(ChipNonceOffset::spec_from_raw(raw)))
        } else if addr == HashCountingNumber::ADDR {
            Some(Registers::HashCountingNumber(HashCountingNumber::spec_from_raw(raw)))
        } else if addr == TicketMask::ADDR {
            Some(Registers::TicketMask(TicketMask::spec_from_raw(raw)))
        } else if addr == MiscControl::ADDR {
            Some(Registers::MiscControl(MiscControl::spec_from_raw(raw)))
        } else if addr == I2CControl::ADDR {
            Some(Registers::I2CControl(I2CControl::spec_from_raw(raw)))
        } else if addr == OrderedClockEnable::ADDR {
            Some(Registers::OrderedClockEnable(OrderedClockEnable::spec_from_raw(raw)))
        } else if addr == FastUARTConfiguration::ADDR {
            Some(Registers::FastUARTConfiguration(FastUARTConfiguration::spec_from_raw(raw)))
        } else if addr == UARTRelay::ADDR {
            Some(Registers::UARTRelay(UARTRelay::spec_from_raw(raw)))
        } else if addr == TicketMask2::ADDR {
            Some(Registers::TicketMask2(TicketMask2::spec_from_raw(raw)))
        } else if addr == CoreRegisterControl::ADDR {
            Some(Registers::CoreRegisterControl(CoreRegisterControl::spec_from_raw(raw)))
        } else if addr == CoreRegisterValue::ADDR {
            Some(Registers::CoreRegisterValue(CoreRegisterValue::spec_from_raw(raw)))
        } else if addr == ExternalTemperatureSensorRead::ADDR {
            Some(Registers::ExternalTemperatureSensorRead(ExternalTemperatureSensorRead::spec_from_raw(raw)))
        } else if addr == ErrorFlag::ADDR {
            Some(Registers::ErrorFlag(ErrorFlag::spec_from_raw(raw)))
        } else if addr == NonceErrorCounter::ADDR {
            Some(Registers::NonceErrorCounter(NonceErrorCounter::spec_from_raw(raw)))
        } else if addr == NonceOverflowCounter::ADDR {
            Some(Registers::NonceOverflowCounter(NonceOverflowCounter::spec_from_raw(raw)))
        } else if addr == AnalogMuxControl::ADDR {
            Some(Registers::AnalogMuxControl(AnalogMuxControl::spec_from_raw(raw)))
        } else if addr == IoDriverStrenghtConfiguration::ADDR {
            Some(Registers::IoDriverStrenghtConfiguration(IoDriverStrenghtConfiguration::spec_from_raw(raw)))
        } else if addr == TimeOut::ADDR {
            Some(Registers::TimeOut(TimeOut::spec_from_raw(raw)))
        } else if addr == PLL1Parameter::ADDR {
            Some(Registers::PLL1Parameter(PLL1Parameter::spec_from_raw(raw)))
        } else if addr == PLL2Parameter::ADDR {
            Some(Registers::PLL2Parameter(PLL2Parameter::spec_from_raw(raw)))
        } else if addr == PLL3Parameter::ADDR {
            Some(Registers::PLL3Parameter(PLL3Parameter::spec_from_raw(raw)))
        } else if addr == OrderedClockMonitor::ADDR {
            Some(Registers::OrderedClockMonitor(OrderedClockMonitor::spec_from_raw(raw)))
        } else if addr == PLL0Divider::ADDR {
            Some(Registers::PLL0Divider(PLL0Divider::spec_from_raw(raw)))
        } else if addr == PLL1Divider::ADDR {
            Some(Registers::PLL1Divider(PLL1Divider::spec_from_raw(raw)))
        } else if addr == PLL2Divider::ADDR {
            Some(Registers::PLL2Divider(PLL2Divider::spec_from_raw(raw)))
        } else if addr == PLL3Divider::ADDR {
            Some(Registers::PLL3Divider(PLL3Divider::spec_from_raw(raw)))
        } else if addr == ClockOrderControl0::ADDR {
            Some(Registers::ClockOrderControl0(ClockOrderControl0::spec_from_raw(raw)))
        } else if addr == ClockOrderControl1::ADDR {
            Some(Registers::ClockOrderControl1(ClockOrderControl1::spec_from_raw(raw)))
        } else if addr == ClockOrderStatus::ADDR {
            Some(Registers::ClockOrderStatus(ClockOrderStatus::spec_from_raw(raw)))
        } else if addr == FrequencySweepControl1::ADDR {
            Some(Registers::FrequencySweepControl1(FrequencySweepControl1::spec_from_raw(raw)))
        } else if addr == GoldenNonceForSweepReturn::ADDR {
            Some(Registers::GoldenNonceForSweepReturn(GoldenNonceForSweepReturn::spec_from_raw(raw)))
        } else if addr == ReturnedGroupPatternStatus::ADDR {
            Some(Registers::ReturnedGroupPatternStatus(ReturnedGroupPatternStatus::spec_from_raw(raw)))
        } else if addr == NonceReturnedTimeout::ADDR {
            Some(Registers::NonceReturnedTimeout(NonceReturnedTimeout::spec_from_raw(raw)))
        } else if addr == ReturnedSinglePatternStatus::ADDR {
            Some(Registers::ReturnedSinglePatternStatus(ReturnedSinglePatternStatus::spec_from_raw(raw)))
        } else {
            None
        }
    }

    /// Whether a register has the address `addr`.
    pub open spec fn is_address(addr: u8) -> bool {
        Self::spec_resolve(addr, 0) is Some
    }

    /// Resolving an address and a raw value gives a register with that
    /// address and that value, every register is what its own address and
    /// value resolve to, and whether an address resolves does not depend on
    /// the value.
    pub proof fn lemma_resolve_round_trip(addr: u8, raw: u32, reg: Registers)
        ensures
            Self::spec_resolve(addr, raw) matches Some(r) ==> r.spec_addr() == addr && r.spec_val()
                == raw,
            Self::spec_resolve(reg.spec_addr(), reg.spec_val()) == Some(reg),
            Self::spec_resolve(addr, raw) is Some <==> Self::is_address(addr),
            Self::is_address(reg.spec_addr()),
    {
    }
}

} // verus!
