use bm1397_protocol::registers::{CoreRegister, Register};
use bm1397_protocol::specifier::{BaudrateClockSelect, ClockSelect, ProcessMonitorSelect};

#[test]
fn clock_select_from_raw() {
    assert_eq!(ClockSelect::from_raw(0b0000), Ok(ClockSelect::Default));
    assert_eq!(ClockSelect::from_raw(0b0101), Err(0b0101));
    assert_eq!(ClockSelect::from_raw(0xFF), Err(0xFF));
}

#[test]
fn clock_select_conversions() {
    assert_eq!(u8::from(ClockSelect::Default), 0);
    assert_eq!(ClockSelect::try_from(0u8), Ok(ClockSelect::Default));
    assert_eq!(ClockSelect::try_from(1u8), Err(1));
    assert_eq!(ClockSelect::default(), ClockSelect::Default);
}

#[test]
fn process_monitor_select_to_raw() {
    assert_eq!(u8::from(ProcessMonitorSelect::LVTDelayChain), 0);
    assert_eq!(u8::from(ProcessMonitorSelect::SVTDelayChain), 1);
    assert_eq!(u8::from(ProcessMonitorSelect::HVTDelayChain), 2);
    assert_eq!(u8::from(ProcessMonitorSelect::CriticalPathChain), 3);
}

#[test]
fn process_monitor_select_from_raw() {
    assert_eq!(ProcessMonitorSelect::try_from(0), Ok(ProcessMonitorSelect::LVTDelayChain));
    assert_eq!(ProcessMonitorSelect::try_from(1), Ok(ProcessMonitorSelect::SVTDelayChain));
    assert_eq!(ProcessMonitorSelect::try_from(2), Ok(ProcessMonitorSelect::HVTDelayChain));
    assert_eq!(ProcessMonitorSelect::try_from(3), Ok(ProcessMonitorSelect::CriticalPathChain));
    assert_eq!(ProcessMonitorSelect::try_from(4), Err(4));
    assert_eq!(ProcessMonitorSelect::try_from(0xFF), Err(0xFF));
}

#[test]
fn process_monitor_select_round_trip() {
    for raw in 0..=255u8 {
        match ProcessMonitorSelect::try_from(raw) {
            Ok(sel) => {
                assert!(raw < 4);
                assert_eq!(u8::from(sel), raw);
            }
            Err(e) => {
                assert!(raw >= 4);
                assert_eq!(e, raw);
            }
        }
    }
    assert_eq!(ProcessMonitorSelect::default(), ProcessMonitorSelect::LVTDelayChain);
}

#[test]
fn baudrate_clock_select_conversions() {
    assert_eq!(BaudrateClockSelect::from(true), BaudrateClockSelect::Clki);
    assert_eq!(BaudrateClockSelect::from(false), BaudrateClockSelect::Pll3);
    assert_eq!(u8::from(BaudrateClockSelect::Clki), 0);
    assert_eq!(u8::from(BaudrateClockSelect::Pll3), 1);
    assert_eq!(BaudrateClockSelect::default(), BaudrateClockSelect::Clki);
}

#[test]
fn specifiers_are_ordered_as_their_encodings() {
    assert!(BaudrateClockSelect::Clki < BaudrateClockSelect::Pll3);
    assert!(ProcessMonitorSelect::LVTDelayChain < ProcessMonitorSelect::SVTDelayChain);
    assert!(ProcessMonitorSelect::HVTDelayChain < ProcessMonitorSelect::CriticalPathChain);
}

#[test]
fn register_names_to_addresses() {
    assert_eq!(u8::from(Register::ChipAddress), 0x00);
    assert_eq!(u8::from(Register::MiscControl), 0x18);
    assert_eq!(u8::from(Register::CoreRegisterControl), 0x3C);
    assert_eq!(u8::from(Register::Pll3Divider), 0x7C);
    assert_eq!(u8::from(Register::ReturnedSinglePatternStatus), 0xA0);
}

#[test]
fn register_names_round_trip() {
    let mut known = 0;
    for addr in 0..=255u8 {
        match Register::try_from(addr) {
            Ok(reg) => {
                known += 1;
                assert_eq!(u8::from(reg), addr);
            }
            Err(e) => assert_eq!(e, addr),
        }
    }
    assert_eq!(known, 37);
    assert_eq!(Register::try_from(0x24), Err(0x24));
    assert_eq!(Register::try_from(0x88), Err(0x88));
    assert_eq!(Register::try_from(0x01), Err(0x01));
    assert_eq!(Register::try_from(0x80), Ok(Register::ClockOrderControl0));
}

#[test]
fn core_register_names_round_trip() {
    for id in 0..=255u8 {
        match CoreRegister::try_from(id) {
            Ok(reg) => {
                assert!(id < 8);
                assert_eq!(u8::from(reg), id);
            }
            Err(e) => {
                assert!(id >= 8);
                assert_eq!(e, id);
            }
        }
    }
    assert_eq!(CoreRegister::try_from(5), Ok(CoreRegister::HashClockCtrl));
    assert_eq!(u8::from(CoreRegister::SweepClockCtrl), 7);
}
