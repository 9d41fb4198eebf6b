use bm1397_protocol::core_register::{
    ClockDelayCtrl, CoreEnable, CoreError, CoreRegisters, HashClockCounter, HashClockCtrl,
    ProcessMonitorCtrl, ProcessMonitorData, SweepClockCtrl,
};
use bm1397_protocol::register::{
    AnalogMuxControl, ChipAddress, ChipNonceOffset, ClockOrderControl0, ClockOrderControl1,
    ClockOrderStatus, CoreRegisterControl, CoreRegisterValue, ErrorFlag,
    ExternalTemperatureSensorRead, FastUARTConfiguration, FrequencySweepControl1,
    GoldenNonceForSweepReturn, HashCountingNumber, HashRate, I2CControl,
    IoDriverStrenghtConfiguration, MiscControl, NonceErrorCounter, NonceOverflowCounter,
    NonceReturnedTimeout, OrderedClockEnable, OrderedClockMonitor, PLL0Divider, PLL0Parameter,
    PLL1Divider, PLL1Parameter, PLL2Divider, PLL2Parameter, PLL3Divider, PLL3Parameter, Register,
    ReturnedGroupPatternStatus, ReturnedSinglePatternStatus, TicketMask, TicketMask2, TimeOut,
    UARTRelay,
};
use bm1397_protocol::specifier::{BaudrateClockSelect, ClockSelect};
use bm1397_protocol::Error;
use fugit::HertzU32;

#[test]
fn chip_address_fields() {
    let reg = ChipAddress::default();
    assert_eq!(reg.chip_id(), 0x1397);
    assert_eq!(reg.core_num(), 0x18);
    assert_eq!(reg.chip_addr(), 0x00);
    let reg = ChipAddress::from(0xFFFE_FDFC);
    assert_eq!(reg.chip_id(), 0xFFFE);
    assert_eq!(reg.core_num(), 0xFD);
    assert_eq!(reg.chip_addr(), 0xFC);
}

fn check(reg: impl Register, addr: u8, reset: u32) {
    assert_eq!(reg.addr(), addr);
    assert_eq!(reg.val(), reset);
}

#[test]
fn every_register_has_its_address_and_reset_value() {
    check(ChipAddress::default(), 0x00, 0x1397_1800);
    check(HashRate::default(), 0x04, 0x8000_0000);
    check(PLL0Parameter::default(), 0x08, 0xC060_0161);
    check(ChipNonceOffset::default(), 0x0C, 0x0000_0000);
    check(HashCountingNumber::default(), 0x10, 0x0000_0000);
    check(TicketMask::default(), 0x14, 0x0000_0000);
    check(MiscControl::default(), 0x18, 0x0000_3A01);
    check(I2CControl::default(), 0x1C, 0x0100_0000);
    check(OrderedClockEnable::default(), 0x20, 0x0000_FFFF);
    check(FastUARTConfiguration::default(), 0x28, 0x0600_000F);
    check(UARTRelay::default(), 0x2C, 0x000F_0000);
    check(TicketMask2::default(), 0x38, 0x0000_0000);
    check(CoreRegisterControl::default(), 0x3C, 0x0000_0000);
    check(CoreRegisterValue::default(), 0x40, 0x0000_0000);
    check(ExternalTemperatureSensorRead::default(), 0x44, 0x0000_0100);
    check(ErrorFlag::default(), 0x48, 0xFF00_0000);
    check(NonceErrorCounter::default(), 0x4C, 0x0000_0000);
    check(NonceOverflowCounter::default(), 0x50, 0x0000_0000);
    check(AnalogMuxControl::default(), 0x54, 0x0000_0000);
    check(IoDriverStrenghtConfiguration::default(), 0x58, 0x0211_2111);
    check(TimeOut::default(), 0x5C, 0x0000_FFFF);
    check(PLL1Parameter::default(), 0x60, 0x0064_0111);
    check(PLL2Parameter::default(), 0x64, 0x0068_0111);
    check(PLL3Parameter::default(), 0x68, 0x0070_0111);
    check(OrderedClockMonitor::default(), 0x6C, 0x0000_0000);
    check(PLL0Divider::default(), 0x70, 0x0304_0607);
    check(PLL1Divider::default(), 0x74, 0x0304_0506);
    check(PLL2Divider::default(), 0x78, 0x0304_0506);
    check(PLL3Divider::default(), 0x7C, 0x0304_0506);
    check(ClockOrderControl0::default(), 0x80, 0xD95C_8410);
    check(ClockOrderControl1::default(), 0x84, 0xFB73_EA62);
    check(ClockOrderStatus::default(), 0x8C, 0x0000_0000);
    check(FrequencySweepControl1::default(), 0x90, 0x0000_0070);
    check(GoldenNonceForSweepReturn::default(), 0x94, 0x0037_6400);
    check(ReturnedGroupPatternStatus::default(), 0x98, 0x3030_3030);
    check(NonceReturnedTimeout::default(), 0x9C, 0x0000_FFFF);
    check(ReturnedSinglePatternStatus::default(), 0xA0, 0x0000_0000);
}

#[test]
fn reset_value_is_the_constant() {
    assert_eq!(u32::from(ChipAddress::default()), ChipAddress::RESET);
    assert_eq!(u32::from(MiscControl::default()), MiscControl::RESET);
    assert_eq!(u32::from(PLL3Parameter::default()), PLL3Parameter::RESET);
    assert_eq!(ChipAddress::default().addr(), ChipAddress::ADDR);
    assert_eq!(ClockOrderControl1::default().addr(), ClockOrderControl1::ADDR);
}

#[test]
fn raw_values_round_trip() {
    for raw in [0u32, 1, 0x8000_0000, 0x1234_5678, 0xDEAD_BEEF, 0xFFFF_FFFF] {
        assert_eq!(u32::from(ChipAddress::from(raw)), raw);
        assert_eq!(u32::from(PLL0Parameter::from(raw)), raw);
        assert_eq!(u32::from(MiscControl::from(raw)), raw);
        assert_eq!(u32::from(CoreRegisterControl::from(raw)), raw);
        assert_eq!(u32::from(ClockOrderControl0::from(raw)), raw);
        assert_eq!(u32::from(ReturnedSinglePatternStatus::from(raw)), raw);
        assert_eq!(TicketMask::from(raw).val(), raw);
        assert_eq!(HashRate::from(u32::from(HashRate::from(raw))), HashRate::from(raw));
    }
}

#[test]
fn pll0_locked() {
    let pll0: PLL0Parameter = PLL0Parameter::default();
    assert!(pll0.locked());
    let pll0: PLL0Parameter = pll0.lock();
    assert!(pll0.locked());
    let pll0: PLL0Parameter = pll0.unlock();
    assert!(!pll0.locked());
    assert_eq!(pll0.val(), 0x4060_0161);
}

#[test]
fn pll0_enabled() {
    let pll0: PLL0Parameter = PLL0Parameter::default();
    assert!(pll0.enabled());
    let pll0: PLL0Parameter = pll0.enable();
    assert!(pll0.enabled());
    let pll0: PLL0Parameter = pll0.disable();
    assert!(!pll0.enabled());
    assert_eq!(pll0.val(), 0x8060_0161);
}

#[test]
fn pll0_fbdiv() {
    let pll0: PLL0Parameter = PLL0Parameter::default();
    assert_eq!(pll0.fbdiv(), 0x0060);
    let pll0: PLL0Parameter = pll0.set_fbdiv(0xAAA);
    assert_eq!(pll0.fbdiv(), 0x0AAA);
    let pll0: PLL0Parameter = pll0.set_fbdiv(0xF555);
    assert_eq!(pll0.fbdiv(), 0x0555);
    assert_eq!(pll0.val(), 0xC555_0161);
}

#[test]
fn pll0_refdiv() {
    let pll0: PLL0Parameter = PLL0Parameter::default();
    assert_eq!(pll0.refdiv(), 0x01);
    let pll0: PLL0Parameter = pll0.set_refdiv(0xAA);
    assert_eq!(pll0.refdiv(), 0x2A);
    let pll0: PLL0Parameter = pll0.set_refdiv(0xF5);
    assert_eq!(pll0.refdiv(), 0x35);
    assert_eq!(pll0.val(), 0xC060_3561);
}

#[test]
fn pll0_postdiv1() {
    let pll0: PLL0Parameter = PLL0Parameter::default();
    assert_eq!(pll0.postdiv1(), 0x06);
    let pll0: PLL0Parameter = pll0.set_postdiv1(0x07);
    assert_eq!(pll0.postdiv1(), 0x07);
    let pll0: PLL0Parameter = pll0.set_postdiv1(0xF5);
    assert_eq!(pll0.postdiv1(), 0x05);
    assert_eq!(pll0.val(), 0xC060_0151);
}

#[test]
fn pll0_postdiv2() {
    let pll0: PLL0Parameter = PLL0Parameter::default();
    assert_eq!(pll0.postdiv2(), 0x01);
    let pll0: PLL0Parameter = pll0.set_postdiv2(0x07);
    assert_eq!(pll0.postdiv2(), 0x07);
    let pll0: PLL0Parameter = pll0.set_postdiv2(0xF5);
    assert_eq!(pll0.postdiv2(), 0x05);
    assert_eq!(pll0.val(), 0xC060_0165);
}

#[test]
fn pll0_frequency() {
    let clki_freq = HertzU32::MHz(25);
    assert_eq!(PLL0Parameter::default().frequency(clki_freq), HertzU32::MHz(400u32));
    assert_eq!(PLL0Parameter::default().frequency(clki_freq).raw(), 400_000_000);
}

#[test]
fn pll1_fields_and_frequency() {
    let pll1: PLL1Parameter = PLL1Parameter::default();
    assert!(!pll1.locked());
    assert!(pll1.lock().locked());
    assert!(!pll1.lock().unlock().locked());
    assert!(!pll1.enabled());
    assert!(pll1.enable().enabled());
    assert!(!pll1.enable().disable().enabled());
    assert_eq!(pll1.fbdiv(), 0x0064);
    assert_eq!(pll1.set_fbdiv(0xAAA).fbdiv(), 0x0AAA);
    assert_eq!(pll1.set_fbdiv(0xF555).fbdiv(), 0x0555);
    assert_eq!(pll1.refdiv(), 0x01);
    assert_eq!(pll1.set_refdiv(0xAA).refdiv(), 0x2A);
    assert_eq!(pll1.set_refdiv(0xF5).refdiv(), 0x35);
    assert_eq!(pll1.postdiv1(), 0x01);
    assert_eq!(pll1.set_postdiv1(0x07).postdiv1(), 0x07);
    assert_eq!(pll1.set_postdiv1(0xF5).postdiv1(), 0x05);
    assert_eq!(pll1.postdiv2(), 0x01);
    assert_eq!(pll1.set_postdiv2(0x07).postdiv2(), 0x07);
    assert_eq!(pll1.set_postdiv2(0xF5).postdiv2(), 0x05);
    assert_eq!(pll1.frequency(HertzU32::MHz(25)), HertzU32::MHz(2500u32));
}

#[test]
fn pll2_fields_and_frequency() {
    let pll2: PLL2Parameter = PLL2Parameter::default();
    assert!(!pll2.locked());
    assert!(pll2.lock().locked());
    assert!(!pll2.enabled());
    assert!(pll2.enable().enabled());
    assert_eq!(pll2.fbdiv(), 0x0068);
    assert_eq!(pll2.set_fbdiv(0xF555).fbdiv(), 0x0555);
    assert_eq!(pll2.set_refdiv(0xF5).refdiv(), 0x35);
    assert_eq!(pll2.set_postdiv1(0xF5).postdiv1(), 0x05);
    assert_eq!(pll2.set_postdiv2(0xF5).postdiv2(), 0x05);
    assert_eq!(pll2.frequency(HertzU32::MHz(25)), HertzU32::MHz(2600u32));
}

#[test]
fn pll3_fields_and_frequency() {
    let pll3: PLL3Parameter = PLL3Parameter::default();
    assert!(!pll3.locked());
    assert!(pll3.lock().locked());
    assert!(!pll3.enabled());
    assert!(pll3.enable().enabled());
    assert_eq!(pll3.fbdiv(), 0x0070);
    assert_eq!(pll3.set_fbdiv(0xF555).fbdiv(), 0x0555);
    assert_eq!(pll3.set_refdiv(0xF5).refdiv(), 0x35);
    assert_eq!(pll3.set_postdiv1(0xF5).postdiv1(), 0x05);
    assert_eq!(pll3.set_postdiv2(0xF5).postdiv2(), 0x05);
    assert_eq!(pll3.frequency(HertzU32::MHz(25)), HertzU32::MHz(2800u32));
}

#[test]
fn pll_frequency_rounds_down() {
    // 25 MHz * 100 / (3 * 7 * 1) = 119_047_619.04...
    let pll = PLL1Parameter::default().set_refdiv(3).set_postdiv1(7);
    assert_eq!(pll.frequency(HertzU32::from_raw(25_000_000)).raw(), 119_047_619);
    // 1 Hz * 1 / (63 * 7 * 7) = 0
    let pll = PLL1Parameter::from(0)
        .set_fbdiv(1)
        .set_refdiv(63)
        .set_postdiv1(7)
        .set_postdiv2(7);
    assert_eq!(pll.frequency(HertzU32::from_raw(1)).raw(), 0);
    assert_eq!(pll.frequency(HertzU32::from_raw(3087)).raw(), 1);
}

#[test]
fn pll_checked_frequency() {
    let clki = HertzU32::MHz(25);
    assert_eq!(PLL0Parameter::default().checked_frequency(clki), Some(HertzU32::MHz(400u32)));
    assert_eq!(PLL1Parameter::default().checked_frequency(clki), Some(HertzU32::MHz(2500u32)));
    assert_eq!(PLL2Parameter::default().checked_frequency(clki), Some(HertzU32::MHz(2600u32)));
    assert_eq!(PLL3Parameter::default().checked_frequency(clki), Some(HertzU32::MHz(2800u32)));
    // a divider that is zero
    assert_eq!(PLL0Parameter::from(0).checked_frequency(clki), None);
    assert_eq!(PLL1Parameter::default().set_refdiv(0).checked_frequency(clki), None);
    assert_eq!(PLL2Parameter::default().set_postdiv1(0).checked_frequency(clki), None);
    assert_eq!(PLL3Parameter::default().set_postdiv2(0).checked_frequency(clki), None);
    // 25 MHz * 172 does not fit in 32 bits, 25 MHz * 171 does
    assert_eq!(PLL1Parameter::default().set_fbdiv(172).checked_frequency(clki), None);
    assert_eq!(
        PLL1Parameter::default().set_fbdiv(171).checked_frequency(clki),
        Some(HertzU32::from_raw(4_275_000_000))
    );
    // a feedback divider of zero is no error
    assert_eq!(
        PLL1Parameter::default().set_fbdiv(0).checked_frequency(clki),
        Some(HertzU32::from_raw(0))
    );
}

#[test]
fn misc_control_bt8d() {
    let misc: MiscControl = MiscControl::default();
    assert_eq!(misc.bt8d(), 0x001A);
    let misc: MiscControl = misc.set_bt8d(0x1AA);
    assert_eq!(misc.bt8d(), 0x01AA);
    let misc: MiscControl = misc.set_bt8d(0xFF55);
    assert_eq!(misc.bt8d(), 0x0155);
    assert_eq!(misc.val(), 0x0A00_3501);
}

#[test]
fn misc_control_core_srst() {
    let misc: MiscControl = MiscControl::default();
    assert!(!misc.core_srst());
    let misc: MiscControl = misc.reset_core();
    assert!(misc.core_srst());
    assert_eq!(misc.val(), 0x0040_3A01);
}

#[test]
fn misc_control_bclk_sel() {
    let misc: MiscControl = MiscControl::default();
    assert_eq!(misc.bclk_sel(), BaudrateClockSelect::Clki);
    let misc: MiscControl = misc.set_bclk_sel(BaudrateClockSelect::Clki);
    assert_eq!(misc.bclk_sel(), BaudrateClockSelect::Clki);
    let misc: MiscControl = misc.set_bclk_sel(BaudrateClockSelect::Pll3);
    assert_eq!(misc.bclk_sel(), BaudrateClockSelect::Pll3);
    assert_eq!(misc.val(), 0x0001_3A01);
    let misc: MiscControl = misc.set_bclk_sel(BaudrateClockSelect::Clki);
    assert_eq!(misc.val(), 0x0000_3A01);
}

#[test]
fn misc_control_masks_keep_their_literal_values() {
    // Known quirk: these two masks are the literals 0xb111 and 0xb11, not 0b111 and 0b11.
    assert_eq!(MiscControl::TFS_MASK, 0xb111 << 4);
    assert_eq!(MiscControl::TFS_MASK, 0x000B_1110);
    assert_eq!(MiscControl::HASHRATE_TWS_MASK, 0xb11);
    assert_eq!(MiscControl::TFS_OFFSET, 4);
    assert_eq!(MiscControl::HASHRATE_TWS_OFFSET, 0);
}

#[test]
fn masks_are_the_field_width_at_the_offset() {
    assert_eq!(ChipAddress::CHIP_ID_MASK, 0xffff << ChipAddress::CHIP_ID_OFFSET);
    assert_eq!(ChipAddress::CORE_NUM_MASK, 0xff << ChipAddress::CORE_NUM_OFFSET);
    assert_eq!(PLL0Parameter::LOCKED_MASK, 0x1 << PLL0Parameter::LOCKED_OFFSET);
    assert_eq!(PLL0Parameter::FBDIV_MASK, 0xfff << PLL0Parameter::FBDIV_OFFSET);
    assert_eq!(PLL2Parameter::REFDIV_MASK, 0x3f << PLL2Parameter::REFDIV_OFFSET);
    assert_eq!(PLL3Parameter::POSTDIV1_MASK, 0x7 << PLL3Parameter::POSTDIV1_OFFSET);
    assert_eq!(MiscControl::BT8D_8_5_MASK, 0b1111 << MiscControl::BT8D_8_5_OFFSET);
    assert_eq!(MiscControl::BT8D_4_0_MASK, 0b11111 << MiscControl::BT8D_4_0_OFFSET);
    assert_eq!(HashRate::HASHRATE_MASK, 0x7fff_ffff);
    assert_eq!(I2CControl::I2C_ADDR_MASK, 0x7f << I2CControl::I2C_ADDR_OFFSET);
    assert_eq!(CoreRegisterControl::RD_WR_MASK, 0x8000_8000);
    assert_eq!(CoreRegisterValue::CORE_ID_MASK, 0x1ff << CoreRegisterValue::CORE_ID_OFFSET);
    assert_eq!(IoDriverStrenghtConfiguration::RF_DS_MASK, 0xf << 24);
    assert_eq!(ClockOrderControl0::CLKN_SEL_LENGTH, 4);
    assert_eq!(ClockOrderControl1::CLKN_SEL_MASK, 0xF);
}

#[test]
fn fast_uart_configuration_pll3_div4() {
    let uart_conf: FastUARTConfiguration = FastUARTConfiguration::default();
    assert_eq!(uart_conf.pll3_div4(), 0x06);
    let uart_conf: FastUARTConfiguration = uart_conf.set_pll3_div4(0x0A);
    assert_eq!(uart_conf.pll3_div4(), 0x0A);
    let uart_conf: FastUARTConfiguration = uart_conf.set_pll3_div4(0xF5);
    assert_eq!(uart_conf.pll3_div4(), 0x05);
    assert_eq!(uart_conf.val(), 0x0500_000F);
}

#[test]
fn core_register_control_read_and_write() {
    let crc: CoreRegisterControl = CoreRegisterControl::default();
    assert_eq!(crc.val(), 0x0000_0000);
    let cdc: ClockDelayCtrl = ClockDelayCtrl::default();
    let crc: CoreRegisterControl = crc.read(0, cdc);
    assert_eq!(crc.val(), 0x0000_00ff);
    let cdc: ClockDelayCtrl = cdc.enable_multi_midstate();
    let crc: CoreRegisterControl = crc.write(0, cdc);
    assert_eq!(crc.val(), 0x8000_8004);
}

#[test]
fn core_register_control_packs_core_and_register() {
    let crc = CoreRegisterControl::default().read(0xAB, HashClockCounter::default());
    assert_eq!(crc.val(), 0x00AB_06FF);
    let crc = CoreRegisterControl::default().write(0xAB, SweepClockCtrl::from(0x5A));
    assert_eq!(crc.val(), 0x80AB_875A);
    // the bits outside the fields stay, the direction bits are cleared by a read
    let crc = CoreRegisterControl::from(0xFFFF_FFFF).read(0x01, ClockDelayCtrl::default());
    assert_eq!(crc.val(), 0x7F01_70FF);
    let crc = CoreRegisterControl::from(0x7F00_7000).write(0x01, ClockDelayCtrl::from(0x02));
    assert_eq!(crc.val(), 0xFF01_F002);
}

#[test]
fn core_register_value_fields() {
    let crv: CoreRegisterValue = CoreRegisterValue::from(0x0001_1234);
    assert_eq!(crv.core_id(), 0x0001);
    assert_eq!(crv.found(), 0x12);
    assert_eq!(crv.core_reg_val(), 0x34);
    let crv: CoreRegisterValue = CoreRegisterValue::from(0xFFFF_FFFF);
    assert_eq!(crv.core_id(), 0x01FF);
    assert_eq!(crv.found(), 0xFF);
    assert_eq!(crv.core_reg_val(), 0xFF);
}

#[test]
fn core_register_value_core_reg() {
    let crv: CoreRegisterValue = CoreRegisterValue::from(0x0001_0234);
    let resp = crv.core_reg(0x02);
    assert!(resp.is_ok());
    assert_eq!(
        resp.unwrap(),
        CoreRegisters::ProcessMonitorData(ProcessMonitorData::from(0x34))
    );
    let resp = crv.core_reg(0xF0);
    assert!(resp.is_err());
    assert_eq!(resp.unwrap_err(), Error::UnknownCoreRegister(0xF0));
}

#[test]
fn core_register_value_core_reg_of_every_identifier() {
    let crv: CoreRegisterValue = CoreRegisterValue::from(0x0000_00C4);
    assert_eq!(crv.core_reg(0), Ok(CoreRegisters::ClockDelayCtrl(ClockDelayCtrl::from(0xC4))));
    assert_eq!(crv.core_reg(1), Ok(CoreRegisters::ProcessMonitorCtrl(ProcessMonitorCtrl::from(0xC4))));
    assert_eq!(crv.core_reg(2), Ok(CoreRegisters::ProcessMonitorData(ProcessMonitorData::from(0xC4))));
    assert_eq!(crv.core_reg(3), Ok(CoreRegisters::CoreError(CoreError::from(0xC4))));
    assert_eq!(crv.core_reg(4), Ok(CoreRegisters::CoreEnable(CoreEnable::from(0xC4))));
    assert_eq!(crv.core_reg(5), Ok(CoreRegisters::HashClockCtrl(HashClockCtrl::from(0xC4))));
    assert_eq!(crv.core_reg(6), Ok(CoreRegisters::HashClockCounter(HashClockCounter::from(0xC4))));
    assert_eq!(crv.core_reg(7), Ok(CoreRegisters::SweepClockCtrl(SweepClockCtrl::from(0xC4))));
    for id in 8..=255u8 {
        assert_eq!(crv.core_reg(id), Err(Error::UnknownCoreRegister(id)));
    }
}

#[test]
fn clock_order_control0_clock_select() {
    let clk_ord_ctrl = ClockOrderControl0::default();
    assert_eq!(clk_ord_ctrl.clock_select(0), Ok(ClockSelect::Default));
    assert_eq!(clk_ord_ctrl.clock_select(1), Err(0x1));
    assert_eq!(clk_ord_ctrl.clock_select(7), Err(0xD));
    assert_eq!(clk_ord_ctrl.clock_select(8), Err(8));
    assert_eq!(clk_ord_ctrl.clock_select(0xFF), Err(0xFF));
    let clk_ord_ctrl = clk_ord_ctrl.set_clock_select(1, ClockSelect::Default);
    assert_eq!(clk_ord_ctrl.clock_select(1), Ok(ClockSelect::Default));
    assert_eq!(clk_ord_ctrl.val(), 0xD95C_8400);
    let clk_ord_ctrl = clk_ord_ctrl.set_clock_select(7, ClockSelect::Default);
    assert_eq!(clk_ord_ctrl.val(), 0x095C_8400);
    let clk_ord_ctrl = clk_ord_ctrl.set_clock_select(8, ClockSelect::Default);
    assert_eq!(clk_ord_ctrl.val(), 0x095C_8400);
}

#[test]
fn clock_order_control1_clock_select() {
    let clk_ord_ctrl = ClockOrderControl1::default();
    assert_eq!(clk_ord_ctrl.clock_select(0), ClockSelect::from_raw(0x2));
    assert_eq!(clk_ord_ctrl.clock_select(0), Err(0x2));
    let clk_ord_ctrl = clk_ord_ctrl.set_clock_select(1, ClockSelect::Default);
    assert_eq!(clk_ord_ctrl.clock_select(1), Ok(ClockSelect::Default));
    assert_eq!(clk_ord_ctrl.val(), 0xFB73_EA02);
    assert_eq!(clk_ord_ctrl.set_clock_select(200, ClockSelect::Default), clk_ord_ctrl);
}

#[test]
fn setting_a_field_keeps_the_bits_outside_its_mask() {
    for raw in [0u32, 0xFFFF_FFFF, 0x1234_5678, 0xC060_0161] {
        let before = PLL0Parameter::from(raw);
        let after = before.set_fbdiv(0x0ABC);
        assert_eq!(after.val() & !PLL0Parameter::FBDIV_MASK, raw & !PLL0Parameter::FBDIV_MASK);
        assert_eq!(after.fbdiv(), 0x0ABC);
        assert_eq!(after.refdiv(), before.refdiv());
        assert_eq!(after.postdiv1(), before.postdiv1());
        assert_eq!(after.postdiv2(), before.postdiv2());
        assert_eq!(after.locked(), before.locked());
        assert_eq!(after.enabled(), before.enabled());
        // setting the same value again changes nothing
        assert_eq!(after.set_fbdiv(0x0ABC), after);
        // the later of two writes wins
        assert_eq!(before.set_fbdiv(0x0111).set_fbdiv(0x0ABC), after);
    }
}
