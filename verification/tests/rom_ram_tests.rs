use mcs4_emu::bus::control::{ControlSignals, IoOperation};
use mcs4_emu::bus::cycle::BusCycle;
use mcs4_emu::bus::data_bus::DataBus;
use mcs4_emu::chips::i4001::I4001;
use mcs4_emu::chips::i4002::I4002;
use mcs4_emu::chips::i4003::I4003;
use mcs4_emu::chips::i4101::I4101;
use mcs4_emu::chips::i4201::I4201;
use mcs4_emu::chips::i4289::I4289;
use mcs4_emu::chips::i4308::I4308;
use mcs4_emu::chips::Chip;

#[test]
fn test_load_rom() {
    let mut rom = I4001::new(0);
    rom.load(&[0x10, 0x20, 0x30, 0x40]);

    assert_eq!(rom.read_direct(0), 0x10);
    assert_eq!(rom.read_direct(1), 0x20);
    assert_eq!(rom.read_direct(2), 0x30);
    assert_eq!(rom.read_direct(3), 0x40);
    assert_eq!(rom.read_direct(4), 0x00);
}

#[test]
fn test_io_port() {
    let mut rom = I4001::new(5);

    rom.set_io_input(0xA);
    assert_eq!(rom.io_input(), 0xA);

    rom.set_io_input(0xFF);
    assert_eq!(rom.io_input(), 0x0F);
}

#[test]
fn test_chip_id() {
    let rom = I4001::new(7);
    assert_eq!(rom.chip_id(), 7);

    let rom2 = I4001::new(0x1F);
    assert_eq!(rom2.chip_id(), 0x0F);
}

#[test]
fn test_ram_read_write() {
    let mut ram = I4002::new(0, 0);

    ram.write_direct(0, 5, 0xA);
    assert_eq!(ram.read_direct(0, 5), 0xA);

    ram.write_direct(1, 7, 0xFF);
    assert_eq!(ram.read_direct(1, 7), 0x0F);
}

#[test]
fn test_status_registers() {
    let mut ram = I4002::new(0, 0);

    ram.write_status(2, 0xC);
    assert_eq!(ram.read_status(2), 0xC);

    ram.wrx(3, 0x5);
    assert_eq!(ram.rdx(3), 0x5);
}

#[test]
fn test_output_port() {
    let mut ram = I4002::new(0, 0);

    ram.wmp(0xB);
    assert_eq!(ram.output(), 0xB);

    ram.wmp(0xFF);
    assert_eq!(ram.output(), 0x0F);
}

#[test]
fn test_addressing() {
    let mut ram = I4002::new(2, 1);

    assert_eq!(ram.chip_id(), 2);
    assert_eq!(ram.bank_id(), 1);

    ram.set_src_address(2, 1, 8);

    ram.wrm(0x7);
    assert_eq!(ram.rdm(), 0x7);
    assert_eq!(ram.read_direct(1, 8), 0x7);
}

#[test]
fn rom_load_clips_at_256_bytes() {
    let mut rom = I4001::new(0);
    let data: Vec<u8> = (0..300u32).map(|i| (i % 251) as u8).collect();
    rom.load(&data);
    assert_eq!(rom.read_direct(255), (255 % 251) as u8);
    assert_eq!(rom.read_direct(0), 0);
    let mut rom2 = I4001::new(0);
    rom2.load_at(254, &[1, 2, 3, 4]);
    assert_eq!(rom2.read_direct(254), 1);
    assert_eq!(rom2.read_direct(255), 2);
    assert_eq!(rom2.read_direct(0), 0);
    rom2.load_at(256, &[9]);
    rom2.load_at(usize::MAX, &[9, 9]);
    assert_eq!(rom2.read_direct(255), 2);
    rom2.load_at(10, &[]);
    assert_eq!(rom2.read_direct(10), 0);
}

#[test]
fn rom_write_direct_then_fetch_observes_the_byte() {
    let mut rom = I4001::new(3);
    rom.write_direct(0xA7, 0xC5);
    assert_eq!(rom.read_direct(0xA7), 0xC5);
    let io = IoOperation::Idle;
    rom.latch(BusCycle::A1, 0x7, 0, io);
    rom.latch(BusCycle::A2, 0xA, 0, io);
    assert!(!rom.is_selected());
    rom.latch(BusCycle::A3, 0x3, 3, io);
    assert!(rom.is_selected());
    assert_eq!(rom.bus_output(BusCycle::M1, io), Some(0x5));
    rom.latch(BusCycle::M1, 0x5, 3, io);
    assert_eq!(rom.bus_output(BusCycle::M2, io), Some(0xC));
    assert_eq!(rom.bus_output(BusCycle::X1, io), None);
    assert_eq!(rom.bus_output(BusCycle::A1, io), None);
}

#[test]
fn rom_not_selected_stays_silent() {
    let mut rom = I4001::new(3);
    rom.write_direct(0, 0xFF);
    rom.latch(BusCycle::A1, 0, 0, IoOperation::Idle);
    rom.latch(BusCycle::A2, 0, 0, IoOperation::Idle);
    rom.latch(BusCycle::A3, 0, 2, IoOperation::Idle);
    assert!(!rom.is_selected());
    assert_eq!(rom.bus_output(BusCycle::M1, IoOperation::Idle), None);
    assert_eq!(rom.bus_output(BusCycle::M2, IoOperation::Idle), None);
    assert_eq!(rom.bus_output(BusCycle::X3, IoOperation::ReadRomPort), None);
}

#[test]
fn rom_port_write_and_read() {
    let mut rom = I4001::new(0);
    rom.set_io_input(0x9);
    rom.latch(BusCycle::A3, 0, 0, IoOperation::Idle);
    rom.latch(BusCycle::X2, 0x6, 0, IoOperation::WriteRomPort);
    assert_eq!(rom.io_output(), 0x6);
    rom.latch(BusCycle::X2, 0x1, 0, IoOperation::WriteRam);
    assert_eq!(rom.io_output(), 0x6);
    assert_eq!(rom.bus_output(BusCycle::X3, IoOperation::ReadRomPort), Some(0x9));
    assert_eq!(rom.bus_output(BusCycle::X3, IoOperation::ReadRam), None);
}

#[test]
fn rom_tick_bus_drives_and_releases() {
    let mut bus = DataBus::new();
    let cpu = bus.add_driver("CPU");
    let id = bus.add_driver("ROM");
    let mut ctrl = ControlSignals::mcs4();
    let mut rom = I4001::new(2);
    rom.write_direct(0x31, 0x4E);
    bus.drive(cpu, 0x1, 0);
    rom.tick_bus(BusCycle::A1, &mut bus, &ctrl, id, 0);
    bus.drive(cpu, 0x3, 1);
    rom.tick_bus(BusCycle::A2, &mut bus, &ctrl, id, 1);
    ctrl.select_rom(2, 2);
    rom.tick_bus(BusCycle::A3, &mut bus, &ctrl, id, 2);
    bus.release(cpu, 3);
    rom.tick_bus(BusCycle::M1, &mut bus, &ctrl, id, 3);
    assert_eq!(bus.read(), 0xE);
    rom.tick_bus(BusCycle::M2, &mut bus, &ctrl, id, 4);
    assert_eq!(bus.read(), 0x4);
    rom.tick_bus(BusCycle::X1, &mut bus, &ctrl, id, 5);
    assert!(!bus.is_valid());
}

#[test]
fn rom_chip_trait() {
    let mut rom = I4001::new(1);
    assert_eq!(rom.name(), "4001");
    rom.write_direct(5, 0x77);
    rom.latch(BusCycle::A3, 0, 1, IoOperation::Idle);
    rom.latch(BusCycle::X2, 0xF, 1, IoOperation::WriteRomPort);
    rom.tick(BusCycle::M1);
    rom.reset();
    assert_eq!(rom.read_direct(5), 0x77);
    assert_eq!(rom.io_output(), 0);
    assert!(!rom.is_selected());
    assert_eq!(I4001::default().chip_id(), 0);
}

#[test]
fn ram_nibbles_stay_nibbles() {
    let mut ram = I4002::with_chip_id(7);
    assert_eq!(ram.chip_id(), 3);
    assert_eq!(ram.bank_id(), 0);
    for reg in 0..8u8 {
        for ch in 0..32u8 {
            ram.write_direct(reg, ch, reg.wrapping_mul(31).wrapping_add(ch).wrapping_add(200));
            assert!(ram.read_direct(reg, ch) < 16);
        }
    }
    ram.write_direct(5, 17, 0xAB);
    assert_eq!(ram.read_direct(1, 1), 0xB);
}

#[test]
fn ram_src_for_another_chip_is_ignored() {
    let mut ram = I4002::new(1, 0);
    ram.set_src_address(1, 2, 3);
    ram.wrm(0xC);
    ram.set_src_address(2, 0, 0);
    assert_eq!(ram.rdm(), 0xC);
    ram.set_src_address(5, 0, 0);
    assert_eq!(ram.rdm(), 0);
    assert_eq!(ram.read_direct(2, 3), 0xC);
}

#[test]
fn ram_bus_phases() {
    let mut ram = I4002::new(0, 1);
    ram.set_src_address(0, 2, 9);
    ram.latch(BusCycle::X1, 0, 0, IoOperation::WriteRam);
    assert!(!ram.is_selected());
    ram.latch(BusCycle::X2, 0xD, 0, IoOperation::WriteRam);
    assert_eq!(ram.read_direct(2, 9), 0);
    ram.latch(BusCycle::X1, 0, 1, IoOperation::WriteRam);
    assert!(ram.is_selected());
    ram.latch(BusCycle::X2, 0xD, 1, IoOperation::WriteRam);
    assert_eq!(ram.read_direct(2, 9), 0xD);
    ram.latch(BusCycle::X2, 0x3, 1, IoOperation::WriteRamPort);
    assert_eq!(ram.output(), 3);
    ram.latch(BusCycle::X2, 0x8, 1, IoOperation::WriteStatus(2));
    assert_eq!(ram.read_status(2), 8);
    ram.latch(BusCycle::X2, 0x1, 1, IoOperation::WriteRomPort);
    assert_eq!(ram.read_direct(2, 9), 0xD);
    assert_eq!(ram.bus_output(BusCycle::X3, IoOperation::ReadRam), Some(0xD));
    assert_eq!(ram.bus_output(BusCycle::X3, IoOperation::ReadStatus(2)), Some(8));
    assert_eq!(ram.bus_output(BusCycle::X3, IoOperation::ReadRomPort), None);
    assert_eq!(ram.bus_output(BusCycle::X2, IoOperation::ReadRam), None);
    assert_eq!(ram.bus_output(BusCycle::M1, IoOperation::ReadRam), None);
}

#[test]
fn ram_tick_bus_and_chip_trait() {
    let mut bus = DataBus::new();
    let cpu = bus.add_driver("CPU");
    let id = bus.add_driver("RAM");
    let mut ctrl = ControlSignals::mcs4();
    let mut ram = I4002::new(0, 0);
    assert_eq!(ram.name(), "4002");
    ram.tick_bus(BusCycle::X1, &mut bus, &ctrl, id, 0);
    assert!(ram.is_selected());
    ctrl.publish_io(IoOperation::WriteRam);
    bus.drive(cpu, 0xB, 1);
    ram.tick_bus(BusCycle::X2, &mut bus, &ctrl, id, 1);
    assert_eq!(ram.rdm(), 0xB);
    bus.release(cpu, 2);
    ctrl.publish_io(IoOperation::ReadRam);
    ram.tick_bus(BusCycle::X3, &mut bus, &ctrl, id, 2);
    assert_eq!(bus.read(), 0xB);
    ram.tick(BusCycle::A1);
    ram.reset();
    assert_eq!(ram.rdm(), 0);
    assert!(!ram.is_selected());
    assert_eq!(I4002::default().bank_id(), 0);
    let copy = {
        let mut r = I4002::new(1, 2);
        r.wmp(7);
        r.clone()
    };
    assert_eq!(copy.output(), 7);
    assert_eq!(copy.bank_id(), 2);
}

#[test]
fn shift_register_keeps_ten_bits() {
    let mut sr = I4003::new();
    assert_eq!(sr.name(), "4003");
    for _ in 0..10 {
        sr.shift_in(true);
    }
    assert_eq!(sr.parallel_out(), 0x3FF);
    sr.shift_in(false);
    assert_eq!(sr.parallel_out(), 0x3FE);
    sr.tick(BusCycle::A1);
    sr.reset();
    assert_eq!(sr.parallel_out(), 0);
    sr.shift_in(true);
    sr.shift_in(false);
    sr.shift_in(true);
    assert_eq!(sr.parallel_out(), 0b101);
    assert_eq!(I4003::default().parallel_out(), 0);
}

#[test]
fn stand_in_chips_have_names() {
    let mut a = I4101::new();
    let mut b = I4201::new();
    let mut c = I4289::new();
    let mut d = I4308::new();
    assert_eq!(a.name(), "4101");
    assert_eq!(b.name(), "4201");
    assert_eq!(c.name(), "4289");
    assert_eq!(d.name(), "4308");
    a.tick(BusCycle::A1);
    b.tick(BusCycle::A1);
    c.tick(BusCycle::A1);
    d.tick(BusCycle::A1);
    a.reset();
    b.reset();
    c.reset();
    d.reset();
    let _ = (I4101::default(), I4201::default(), I4289::default(), I4308::default());
}
