use mcs4_emu::sim::signal::{Bus4, Signal, SignalId, SignalLevel};

#[test]
fn test_signal_logic() {
    assert_eq!(SignalLevel::High.invert(), SignalLevel::Low);
    assert_eq!(SignalLevel::Low.invert(), SignalLevel::High);

    assert_eq!(SignalLevel::High.and(SignalLevel::High), SignalLevel::High);
    assert_eq!(SignalLevel::High.and(SignalLevel::Low), SignalLevel::Low);
    assert_eq!(SignalLevel::Low.and(SignalLevel::Low), SignalLevel::Low);

    assert_eq!(SignalLevel::High.or(SignalLevel::Low), SignalLevel::High);
    assert_eq!(SignalLevel::Low.or(SignalLevel::Low), SignalLevel::Low);
}

#[test]
fn test_bus_resolution() {
    assert_eq!(SignalLevel::resolve(&[SignalLevel::Z, SignalLevel::Z]), SignalLevel::Z);
    assert_eq!(SignalLevel::resolve(&[SignalLevel::High, SignalLevel::Z]), SignalLevel::High);
    assert_eq!(SignalLevel::resolve(&[SignalLevel::High, SignalLevel::Low]), SignalLevel::X);
}

#[test]
fn signal_test_signal_history() {
    let mut sig = Signal::new("test", SignalLevel::Low);

    sig.update(100, SignalLevel::High);
    sig.update(200, SignalLevel::Low);
    sig.update(300, SignalLevel::High);

    assert_eq!(sig.value_at(50), SignalLevel::High); // Before first transition
    assert_eq!(sig.value_at(150), SignalLevel::High);
    assert_eq!(sig.value_at(250), SignalLevel::Low);
    assert_eq!(sig.value_at(350), SignalLevel::High);
}

#[test]
fn test_bus4() {
    let mut bus = Bus4::new("D");
    assert_eq!(bus.value(), 0);

    bus.update(100, 0b1010);
    assert_eq!(bus.value(), 0b1010);

    bus.update(200, 0b0101);
    assert_eq!(bus.value(), 0b0101);
}

#[test]
fn signal_level_algebra_with_undefined() {
    let all = [SignalLevel::Low, SignalLevel::High, SignalLevel::Z, SignalLevel::X];
    for &a in all.iter() {
        assert_eq!(SignalLevel::Low.and(a), SignalLevel::Low);
        assert_eq!(a.and(SignalLevel::Low), SignalLevel::Low);
        assert_eq!(SignalLevel::High.or(a), SignalLevel::High);
        assert_eq!(a.or(SignalLevel::High), SignalLevel::High);
    }
    assert_eq!(SignalLevel::Z.invert(), SignalLevel::X);
    assert_eq!(SignalLevel::X.invert(), SignalLevel::X);
    assert_eq!(SignalLevel::High.and(SignalLevel::Z), SignalLevel::X);
    assert_eq!(SignalLevel::High.and(SignalLevel::X), SignalLevel::X);
    assert_eq!(SignalLevel::Low.or(SignalLevel::Z), SignalLevel::X);
    assert_eq!(SignalLevel::Z.or(SignalLevel::X), SignalLevel::X);
}

#[test]
fn signal_level_predicates_and_conversions() {
    assert!(SignalLevel::Low.is_defined());
    assert!(SignalLevel::High.is_defined());
    assert!(!SignalLevel::Z.is_defined());
    assert!(!SignalLevel::X.is_defined());
    assert!(SignalLevel::High.is_high());
    assert!(!SignalLevel::Low.is_high());
    assert!(SignalLevel::Low.is_low());
    assert!(!SignalLevel::Z.is_low());
    assert_eq!(SignalLevel::from_bool(true), SignalLevel::High);
    assert_eq!(SignalLevel::from_bool(false), SignalLevel::Low);
    assert!(SignalLevel::High.to_bool());
    assert!(!SignalLevel::X.to_bool());
    assert_eq!(SignalLevel::default(), SignalLevel::Z);
    assert_eq!(SignalId::invalid(), SignalId(u32::MAX));
}

#[test]
fn resolve_more_cases() {
    assert_eq!(SignalLevel::resolve(&[]), SignalLevel::Z);
    assert_eq!(SignalLevel::resolve(&[SignalLevel::Low, SignalLevel::Low]), SignalLevel::Low);
    assert_eq!(SignalLevel::resolve(&[SignalLevel::High, SignalLevel::High]), SignalLevel::High);
    assert_eq!(SignalLevel::resolve(&[SignalLevel::Z, SignalLevel::X]), SignalLevel::X);
    assert_eq!(SignalLevel::resolve(&[SignalLevel::Z, SignalLevel::Low]), SignalLevel::Low);
}

#[test]
fn double_inversion_on_defined_levels() {
    for &x in [SignalLevel::Low, SignalLevel::High].iter() {
        assert_eq!(x.invert().invert(), x);
    }
}

#[test]
fn update_records_changes_only() {
    let mut sig = Signal::new("s", SignalLevel::Low);
    assert_eq!(sig.name, "s");
    assert_eq!(sig.level(), SignalLevel::Low);
    sig.update(10, SignalLevel::Low);
    assert_eq!(sig.history().len(), 0);
    sig.update(20, SignalLevel::High);
    sig.update(30, SignalLevel::High);
    assert_eq!(sig.history(), &[(20, SignalLevel::High)]);
    assert_eq!(sig.current, SignalLevel::High);
    sig.update(40, SignalLevel::Z);
    assert_eq!(sig.history(), &[(20, SignalLevel::High), (40, SignalLevel::Z)]);
}

#[test]
fn value_at_without_history_is_current() {
    let sig = Signal::new("s", SignalLevel::X);
    assert_eq!(sig.value_at(0), SignalLevel::X);
    assert_eq!(sig.value_at(u64::MAX), SignalLevel::X);
}

#[test]
fn value_at_is_stable_between_transitions() {
    let mut sig = Signal::new("s", SignalLevel::Low);
    sig.update(100, SignalLevel::High);
    sig.update(200, SignalLevel::Low);
    for t in 100..200 {
        assert_eq!(sig.value_at(t), sig.value_at(100));
    }
    assert_eq!(sig.value_at(100), SignalLevel::High);
    assert_eq!(sig.value_at(200), SignalLevel::Low);
    assert_eq!(sig.value_at(199), SignalLevel::High);
}

#[test]
fn value_at_takes_last_of_equal_times() {
    let mut sig = Signal::new("s", SignalLevel::Low);
    sig.update(100, SignalLevel::High);
    sig.update(100, SignalLevel::Low);
    sig.update(100, SignalLevel::High);
    assert_eq!(sig.value_at(100), SignalLevel::High);
    assert_eq!(sig.value_at(150), SignalLevel::High);
}

#[test]
fn transitions_in_range_filters_by_time() {
    let mut sig = Signal::new("s", SignalLevel::Low);
    sig.update(100, SignalLevel::High);
    sig.update(200, SignalLevel::Low);
    sig.update(300, SignalLevel::High);
    assert_eq!(
        sig.transitions_in_range(100, 200),
        vec![(100, SignalLevel::High), (200, SignalLevel::Low)]
    );
    assert_eq!(sig.transitions_in_range(101, 199), vec![]);
    assert_eq!(sig.transitions_in_range(0, 1000).len(), 3);
}

#[test]
fn history_is_pruned_by_quarters() {
    let mut sig = Signal::with_history_limit("s", SignalLevel::Low, 8);
    for i in 0..8u64 {
        let level = if i % 2 == 0 { SignalLevel::High } else { SignalLevel::Low };
        sig.update(i, level);
    }
    assert_eq!(sig.history().len(), 8);
    sig.update(8, SignalLevel::High);
    // The two oldest entries went, then the new one came.
    assert_eq!(sig.history().len(), 7);
    assert_eq!(sig.history()[0], (2, SignalLevel::High));
    assert_eq!(sig.history()[6], (8, SignalLevel::High));
}

#[test]
fn tiny_history_limit_keeps_one_entry() {
    let mut sig = Signal::with_history_limit("s", SignalLevel::Low, 0);
    sig.update(1, SignalLevel::High);
    sig.update(2, SignalLevel::Low);
    sig.update(3, SignalLevel::High);
    assert_eq!(sig.history(), &[(3, SignalLevel::High)]);
}

#[test]
fn clear_history_keeps_level() {
    let mut sig = Signal::new("s", SignalLevel::Low);
    sig.update(5, SignalLevel::High);
    sig.clear_history();
    assert_eq!(sig.history().len(), 0);
    assert_eq!(sig.level(), SignalLevel::High);
}

#[test]
fn clone_copies_history() {
    let mut sig = Signal::new("s", SignalLevel::Low);
    sig.update(5, SignalLevel::High);
    let copy = sig.clone();
    sig.update(6, SignalLevel::Low);
    assert_eq!(copy.history(), &[(5, SignalLevel::High)]);
    assert_eq!(copy.level(), SignalLevel::High);
    assert_eq!(copy.name, "s");
}

#[test]
fn bus4_names_and_tristate() {
    let mut bus = Bus4::new("D");
    assert_eq!(bus.bits[0].name, "D0");
    assert_eq!(bus.bits[3].name, "D3");
    bus.update(1, 0xFF);
    assert_eq!(bus.value(), 0xF);
    bus.tristate(2);
    assert_eq!(bus.value(), 0);
    for bit in bus.bits.iter() {
        assert_eq!(bit.level(), SignalLevel::Z);
    }
}
