use bm1397_protocol::core_register::{
    ClockDelayCtrl, CoreEnable, CoreError, CoreRegister, HashClockCounter, HashClockCtrl,
    ProcessMonitorCtrl, ProcessMonitorData, SweepClockCtrl,
};
use bm1397_protocol::specifier::ProcessMonitorSelect;

fn check_core(reg: impl CoreRegister, id: u8, reset: u8) {
    assert_eq!(reg.id(), id);
    assert_eq!(reg.val(), reset);
}

#[test]
fn every_core_register_has_its_identifier_and_reset_value() {
    check_core(ClockDelayCtrl::default(), 0, 0);
    check_core(ProcessMonitorCtrl::default(), 1, 0);
    check_core(ProcessMonitorData::default(), 2, 0);
    check_core(CoreError::default(), 3, 0);
    check_core(CoreEnable::default(), 4, 0);
    check_core(HashClockCtrl::default(), 5, 0);
    check_core(HashClockCounter::default(), 6, 0);
    check_core(SweepClockCtrl::default(), 7, 0);
    assert_eq!(ClockDelayCtrl::ID, ClockDelayCtrl::default().id());
    assert_eq!(SweepClockCtrl::ID, SweepClockCtrl::default().id());
    assert_eq!(u8::from(CoreError::default()), CoreError::RESET);
}

#[test]
fn core_register_raw_values_round_trip() {
    for raw in 0..=255u8 {
        assert_eq!(u8::from(ClockDelayCtrl::from(raw)), raw);
        assert_eq!(u8::from(ProcessMonitorCtrl::from(raw)), raw);
        assert_eq!(u8::from(ProcessMonitorData::from(raw)), raw);
        assert_eq!(u8::from(CoreError::from(raw)), raw);
        assert_eq!(u8::from(CoreEnable::from(raw)), raw);
        assert_eq!(u8::from(HashClockCtrl::from(raw)), raw);
        assert_eq!(u8::from(HashClockCounter::from(raw)), raw);
        assert_eq!(SweepClockCtrl::from(raw).val(), raw);
    }
}

#[test]
fn clock_delay_ctrl_ccdly() {
    let cdc: ClockDelayCtrl = ClockDelayCtrl::default();
    assert_eq!(cdc.ccdly(), 0x00);
    let cdc: ClockDelayCtrl = cdc.set_ccdly(0x03);
    assert_eq!(cdc.ccdly(), 0x03);
    assert_eq!(cdc.val(), 0xC0);
    let cdc: ClockDelayCtrl = cdc.set_ccdly(0xFE);
    assert_eq!(cdc.ccdly(), 0x02);
    assert_eq!(cdc.val(), 0x80);
}

#[test]
fn clock_delay_ctrl_pwth() {
    let cdc: ClockDelayCtrl = ClockDelayCtrl::default();
    assert_eq!(cdc.pwth(), 0x00);
    let cdc: ClockDelayCtrl = cdc.set_pwth(0x03);
    assert_eq!(cdc.pwth(), 0x03);
    assert_eq!(cdc.val(), 0x30);
}

#[test]
fn clock_delay_ctrl_pwth_is_truncated_to_two_bits() {
    let cdc: ClockDelayCtrl = ClockDelayCtrl::default().set_pwth(0xFF);
    assert_eq!(cdc.pwth(), 0x03);
    assert_eq!(cdc.ccdly(), 0x00);
    assert_eq!(cdc.val(), 0x30);
    let cdc: ClockDelayCtrl = ClockDelayCtrl::from(0xCF).set_pwth(0x06);
    assert_eq!(cdc.pwth(), 0x02);
    assert_eq!(cdc.val(), 0xEF);
}

#[test]
fn clock_delay_ctrl_hash_clock() {
    let cdc: ClockDelayCtrl = ClockDelayCtrl::default();
    assert!(!cdc.hash_clock_enabled());
    let cdc: ClockDelayCtrl = cdc.enable_hash_clock();
    assert!(cdc.hash_clock_enabled());
    assert_eq!(cdc.val(), 0x08);
    let cdc: ClockDelayCtrl = cdc.disable_hash_clock();
    assert!(!cdc.hash_clock_enabled());
}

#[test]
fn clock_delay_ctrl_multi_midstate() {
    let cdc: ClockDelayCtrl = ClockDelayCtrl::default();
    assert!(!cdc.multi_midstate_enabled());
    let cdc: ClockDelayCtrl = cdc.enable_multi_midstate();
    assert!(cdc.multi_midstate_enabled());
    assert_eq!(cdc.val(), 0x04);
    let cdc: ClockDelayCtrl = cdc.disable_multi_midstate();
    assert!(!cdc.multi_midstate_enabled());
}

#[test]
fn clock_delay_ctrl_sweep_frequency_mode() {
    let cdc: ClockDelayCtrl = ClockDelayCtrl::default();
    assert!(!cdc.sweep_frequency_mode_enabled());
    let cdc: ClockDelayCtrl = cdc.enable_sweep_frequency_mode();
    assert!(cdc.sweep_frequency_mode_enabled());
    assert_eq!(cdc.val(), 0x01);
    let cdc: ClockDelayCtrl = cdc.disable_sweep_frequency_mode();
    assert!(!cdc.sweep_frequency_mode_enabled());
}

#[test]
fn clock_delay_ctrl_flags_do_not_touch_each_other() {
    let cdc = ClockDelayCtrl::from(0xFF)
        .disable_hash_clock()
        .disable_multi_midstate()
        .disable_sweep_frequency_mode();
    assert_eq!(cdc.val(), 0xF2);
    assert_eq!(cdc.ccdly(), 3);
    assert_eq!(cdc.pwth(), 3);
    let cdc = ClockDelayCtrl::from(0x00).enable_hash_clock().enable_sweep_frequency_mode();
    assert_eq!(cdc.val(), 0x09);
    assert!(!cdc.multi_midstate_enabled());
}

#[test]
fn process_monitor_ctrl_start() {
    let pmc: ProcessMonitorCtrl = ProcessMonitorCtrl::default();
    assert!(!pmc.started());
    assert_eq!(pmc.pm_sel(), ProcessMonitorSelect::LVTDelayChain);
    let pmc: ProcessMonitorCtrl = pmc.start(ProcessMonitorSelect::HVTDelayChain);
    assert!(pmc.started());
    assert_eq!(pmc.pm_sel(), ProcessMonitorSelect::HVTDelayChain);
    assert_eq!(pmc.val(), 0x06);
    let pmc: ProcessMonitorCtrl = pmc.start(ProcessMonitorSelect::SVTDelayChain);
    assert_eq!(pmc.pm_sel(), ProcessMonitorSelect::SVTDelayChain);
    assert_eq!(pmc.val(), 0x05);
    let pmc: ProcessMonitorCtrl = ProcessMonitorCtrl::from(0xF8).start(
        ProcessMonitorSelect::CriticalPathChain,
    );
    assert_eq!(pmc.val(), 0xFF);
}

#[test]
fn process_monitor_ctrl_pm_sel_of_every_encoding() {
    assert_eq!(ProcessMonitorCtrl::from(0xFC).pm_sel(), ProcessMonitorSelect::LVTDelayChain);
    assert_eq!(ProcessMonitorCtrl::from(0xFD).pm_sel(), ProcessMonitorSelect::SVTDelayChain);
    assert_eq!(ProcessMonitorCtrl::from(0xFE).pm_sel(), ProcessMonitorSelect::HVTDelayChain);
    assert_eq!(ProcessMonitorCtrl::from(0xFF).pm_sel(), ProcessMonitorSelect::CriticalPathChain);
}

#[test]
fn process_monitor_data_data() {
    let pmd: ProcessMonitorData = ProcessMonitorData::default();
    assert_eq!(pmd.data(), 0x00);
    assert_eq!(ProcessMonitorData::from(0xA5).data(), 0xA5);
}

#[test]
fn core_error_fields() {
    let ce: CoreError = CoreError::default();
    assert!(!ce.ini_nonce_err());
    assert_eq!(ce.cmd_err_cnt(), 0x00);
    let ce: CoreError = CoreError::from(0xFF);
    assert!(ce.ini_nonce_err());
    assert_eq!(ce.cmd_err_cnt(), 0x0F);
    let ce: CoreError = CoreError::from(0xE7);
    assert!(!ce.ini_nonce_err());
    assert_eq!(ce.cmd_err_cnt(), 0x07);
}

#[test]
fn core_register_masks() {
    assert_eq!(ClockDelayCtrl::CCDLY_SEL_MASK, 0b11 << ClockDelayCtrl::CCDLY_SEL_OFFSET);
    assert_eq!(ClockDelayCtrl::PWTH_SEL_MASK, 0b11 << ClockDelayCtrl::PWTH_SEL_OFFSET);
    assert_eq!(ClockDelayCtrl::HASH_CLKEN_MASK, 0b1 << ClockDelayCtrl::HASH_CLKEN_OFFSET);
    assert_eq!(ProcessMonitorCtrl::PM_START_MASK, 0b1 << ProcessMonitorCtrl::PM_START_OFFSET);
    assert_eq!(CoreError::INI_NONCE_ERR_MASK, 0b1 << CoreError::INI_NONCE_ERR_OFFSET);
    assert_eq!(CoreEnable::CORE_EN_I_MASK, 0xff);
    assert_eq!(HashClockCtrl::CLOCK_CTRL_MASK, 0xff);
    assert_eq!(HashClockCounter::CLOCK_CNT_MASK, 0xff);
    assert_eq!(SweepClockCtrl::SWPF_MODE_MASK, 0b1 << SweepClockCtrl::SWPF_MODE_OFFSET);
    assert_eq!(SweepClockCtrl::CLK_SEL_MASK, 0b1111);
}
