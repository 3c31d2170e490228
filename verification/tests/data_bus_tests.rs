use mcs4_emu::bus::data_bus::{Address12, Byte8, DataBus};
use mcs4_emu::sim::signal::SignalLevel;

#[test]
fn test_bus_drive() {
    let mut bus = DataBus::new();
    let cpu = bus.add_driver("CPU");

    bus.drive(cpu, 0b1010, 0);
    assert_eq!(bus.read(), 0b1010);
    assert!(bus.is_valid());
}

#[test]
fn test_bus_release() {
    let mut bus = DataBus::new();
    let cpu = bus.add_driver("CPU");

    bus.drive(cpu, 0b1010, 0);
    bus.release(cpu, 100);

    assert!(!bus.is_valid()); // Bus is floating
}

#[test]
fn test_bus_contention() {
    let mut bus = DataBus::new();
    let cpu = bus.add_driver("CPU");
    let rom = bus.add_driver("ROM");

    bus.drive(cpu, 0b1010, 0);
    bus.drive(rom, 0b0101, 0); // Different value!

    assert!(bus.has_contention());
}

#[test]
fn test_address12() {
    let addr = Address12::from_nibbles(0xA, 0xB, 0xC);
    assert_eq!(addr.value, 0xCBA);
    assert_eq!(addr.page(), 0xC);
    assert_eq!(addr.offset(), 0xBA);
}

#[test]
fn test_byte8() {
    let byte = Byte8::from_nibbles(0x4, 0xD); // D4 = JCN instruction
    assert_eq!(byte.value, 0xD4);
    assert_eq!(byte.opr(), 0xD);
    assert_eq!(byte.opa(), 0x4);
}

#[test]
fn bus_contention_reads_neither_value() {
    let mut bus = DataBus::new();
    let a = bus.add_driver("A");
    let b = bus.add_driver("B");
    bus.drive(a, 0b1010, 0);
    bus.drive(b, 0b0101, 0);
    assert!(bus.has_contention());
    assert!(!bus.is_valid());
    assert_ne!(bus.read(), 0b1010);
    assert_ne!(bus.read(), 0b0101);
    for i in 0..4 {
        assert_eq!(bus.line(i).unwrap().level(), SignalLevel::X);
    }
}

#[test]
fn bus_is_all_z_all_defined_or_all_x() {
    let mut bus = DataBus::new();
    let a = bus.add_driver("A");
    let b = bus.add_driver("B");
    let check = |bus: &DataBus| {
        let levels: Vec<SignalLevel> = (0..4).map(|i| bus.line(i).unwrap().level()).collect();
        let all_z = levels.iter().all(|l| *l == SignalLevel::Z);
        let all_x = levels.iter().all(|l| *l == SignalLevel::X);
        let all_defined = levels.iter().all(|l| l.is_defined());
        assert!(all_z || all_x || all_defined);
    };
    check(&bus);
    bus.drive(a, 3, 1);
    check(&bus);
    bus.drive(b, 3, 2);
    check(&bus);
    assert_eq!(bus.read(), 3);
    assert!(bus.is_valid());
    bus.drive(b, 4, 3);
    check(&bus);
    assert!(bus.has_contention());
    bus.release(a, 4);
    check(&bus);
    assert_eq!(bus.read(), 4);
    bus.release(b, 5);
    check(&bus);
    assert!(!bus.is_valid());
    assert!(!bus.has_contention());
}

#[test]
fn bus_drive_masks_value_and_ignores_unknown_driver() {
    let mut bus = DataBus::new();
    let a = bus.add_driver("A");
    assert_eq!(a, 0);
    assert_eq!(bus.driver_count(), 1);
    bus.drive(a, 0xF5, 0);
    assert_eq!(bus.read(), 5);
    bus.drive(17, 0xA, 1);
    assert_eq!(bus.read(), 5);
    bus.release(17, 2);
    assert_eq!(bus.read(), 5);
    assert!(bus.line(4).is_none());
    assert_eq!(bus.line(0).unwrap().name, "D0");
    let fresh = DataBus::default();
    assert_eq!(fresh.read(), 0);
    assert!(!fresh.is_valid());
}

#[test]
fn bus_lines_record_transitions() {
    let mut bus = DataBus::new();
    let a = bus.add_driver("A");
    bus.drive(a, 0b0001, 10);
    bus.release(a, 20);
    assert_eq!(
        bus.lines[0].history(),
        &[(10, SignalLevel::High), (20, SignalLevel::Z)]
    );
    assert_eq!(
        bus.lines[1].history(),
        &[(10, SignalLevel::Low), (20, SignalLevel::Z)]
    );
}

#[test]
fn address12_parts() {
    let addr = Address12::new(0xFABC);
    assert_eq!(addr.value, 0xABC);
    assert_eq!(addr.nibble_a1(), 0xC);
    assert_eq!(addr.nibble_a2(), 0xB);
    assert_eq!(addr.nibble_a3(), 0xA);
    assert_eq!(addr.page(), 0xA);
    assert_eq!(addr.offset(), 0xBC);
    let back = Address12::from_nibbles(addr.nibble_a1(), addr.nibble_a2(), addr.nibble_a3());
    assert_eq!(back.value, addr.value);
    assert_eq!(Address12::default().value, 0);
    assert_eq!(Address12::from_nibbles(0x1F, 0, 0).value, 0x1F);
}

#[test]
fn byte8_parts() {
    let byte = Byte8::new(0x3C);
    assert_eq!(byte.nibble_m1(), 0xC);
    assert_eq!(byte.nibble_m2(), 0x3);
    assert_eq!(Byte8::from_nibbles(0xFC, 0xF3).value, 0x3C);
    assert_eq!(Byte8::default().value, 0);
}

#[test]
fn contention_names_the_drivers() {
    let mut bus = DataBus::new();
    let a = bus.add_driver("CPU");
    let b = bus.add_driver("ROM");
    let c = bus.add_driver("RAM");
    bus.drive(a, 1, 0);
    bus.drive(c, 2, 0);
    assert!(bus.has_contention());
    assert_eq!(bus.active_drivers(), vec![a, c]);
    assert_eq!(bus.driver_name(b), Some("ROM"));
    assert_eq!(bus.driver_name(c), Some("RAM"));
    assert_eq!(bus.driver_name(3), None);
    bus.release(a, 1);
    assert_eq!(bus.active_drivers(), vec![c]);
}
