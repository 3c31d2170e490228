use mcs4_emu::bus::control::{ChipSelect, ControlSignals, IoOperation};
use mcs4_emu::sim::signal::SignalLevel;

#[test]
fn test_rom_select() {
    let mut ctrl = ControlSignals::mcs4();

    ctrl.select_rom(5, 0); // Binary 0101
    assert_eq!(ctrl.selected_rom(), Some(5));

    ctrl.deselect_rom(100);
    assert_eq!(ctrl.selected_rom(), None);
}

#[test]
fn test_ram_select() {
    let mut ctrl = ControlSignals::mcs4();

    ctrl.select_ram(10, 0); // Binary 1010
    assert_eq!(ctrl.selected_ram(), Some(10));
}

#[test]
fn test_sync() {
    let mut ctrl = ControlSignals::mcs4();

    assert_eq!(ctrl.sync.current, SignalLevel::Low);

    ctrl.assert_sync(100);
    assert_eq!(ctrl.sync.current, SignalLevel::High);

    ctrl.deassert_sync(200);
    assert_eq!(ctrl.sync.current, SignalLevel::Low);
}

#[test]
fn test_mcs40_signals() {
    let ctrl = ControlSignals::mcs40();

    assert!(ctrl.stp.is_some());
    assert!(ctrl.stop.is_some());
    assert!(ctrl.int.is_some());
}

#[test]
fn control_select_masks_to_four_bits() {
    let mut ctrl = ControlSignals::mcs4();
    ctrl.select_rom(0x1F, 0);
    assert_eq!(ctrl.cm_rom(), 0xF);
    ctrl.select_ram(0x23, 0);
    assert_eq!(ctrl.cm_ram(), 3);
    ctrl.deselect_ram(1);
    assert_eq!(ctrl.cm_ram(), 0);
    assert_eq!(ctrl.selected_ram(), None);
    assert_eq!(ctrl.cm_rom[0].name, "CM-ROM0");
    assert_eq!(ctrl.cm_ram[3].name, "CM-RAM3");
}

#[test]
fn control_test_and_reset_lines() {
    let mut ctrl = ControlSignals::mcs4();
    assert!(!ctrl.test_active());
    ctrl.test.update(5, SignalLevel::Low);
    assert!(ctrl.test_active());
    assert!(!ctrl.in_reset());
    ctrl.assert_reset(10);
    assert!(ctrl.in_reset());
    ctrl.deassert_reset(20);
    assert!(!ctrl.in_reset());
    assert_eq!(ctrl.reset.history().len(), 2);
}

#[test]
fn control_mcs40_lines() {
    let mut ctrl = ControlSignals::mcs40();
    assert!(!ctrl.interrupt_pending());
    assert!(!ctrl.stop_requested());
    ctrl.int.as_mut().unwrap().update(1, SignalLevel::High);
    ctrl.stop.as_mut().unwrap().update(1, SignalLevel::High);
    assert!(ctrl.interrupt_pending());
    assert!(ctrl.stop_requested());
    let plain = ControlSignals::mcs4();
    assert!(plain.stp.is_none());
    assert!(!plain.interrupt_pending());
    assert!(!plain.stop_requested());
}

#[test]
fn control_io_operation_is_published() {
    let mut ctrl = ControlSignals::mcs4();
    assert!(!ctrl.is_io_write());
    assert!(!ctrl.is_io_read());
    ctrl.publish_io(IoOperation::WriteRam);
    assert!(ctrl.is_io_write());
    assert!(!ctrl.is_io_read());
    ctrl.publish_io(IoOperation::ReadStatus(2));
    assert!(!ctrl.is_io_write());
    assert!(ctrl.is_io_read());
    assert!(IoOperation::WriteStatus(1).is_write());
    assert!(IoOperation::WriteRomPort.is_write());
    assert!(IoOperation::WriteRamPort.is_write());
    assert!(IoOperation::WriteProgramRam.is_write());
    assert!(IoOperation::ReadRam.is_read());
    assert!(IoOperation::ReadRomPort.is_read());
    assert!(!IoOperation::Idle.is_read());
    assert!(!IoOperation::Idle.is_write());
    assert_ne!(ChipSelect::Rom(1), ChipSelect::Ram(1));
    assert_eq!(ChipSelect::NoChip, ChipSelect::NoChip);
}
