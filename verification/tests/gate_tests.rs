use mcs4_emu::sim::gate::{
    And2, DFlipFlop, Gate, GateType, Inverter, Nand2, Nand3, Nor2, Nor3, Or2, SRLatch,
};
use mcs4_emu::sim::signal::{SignalId, SignalLevel};

#[test]
fn test_inverter() {
    let inv = Inverter::new(SignalId(0), SignalId(1), 1);
    assert_eq!(inv.evaluate(&[SignalLevel::High]), SignalLevel::Low);
    assert_eq!(inv.evaluate(&[SignalLevel::Low]), SignalLevel::High);
}

#[test]
fn test_nand2() {
    let nand = Nand2::new(SignalId(0), SignalId(1), SignalId(2), 1);
    assert_eq!(nand.evaluate(&[SignalLevel::High, SignalLevel::High]), SignalLevel::Low);
    assert_eq!(nand.evaluate(&[SignalLevel::High, SignalLevel::Low]), SignalLevel::High);
    assert_eq!(nand.evaluate(&[SignalLevel::Low, SignalLevel::High]), SignalLevel::High);
    assert_eq!(nand.evaluate(&[SignalLevel::Low, SignalLevel::Low]), SignalLevel::High);
}

#[test]
fn test_nor2() {
    let nor = Nor2::new(SignalId(0), SignalId(1), SignalId(2), 1);
    assert_eq!(nor.evaluate(&[SignalLevel::High, SignalLevel::High]), SignalLevel::Low);
    assert_eq!(nor.evaluate(&[SignalLevel::High, SignalLevel::Low]), SignalLevel::Low);
    assert_eq!(nor.evaluate(&[SignalLevel::Low, SignalLevel::High]), SignalLevel::Low);
    assert_eq!(nor.evaluate(&[SignalLevel::Low, SignalLevel::Low]), SignalLevel::High);
}

#[test]
fn test_sr_latch() {
    let mut latch = SRLatch::new(SignalId(0), SignalId(1), SignalId(2), SignalId(3), 1);

    let (q, qb) = latch.update(SignalLevel::High, SignalLevel::Low);
    assert_eq!(q, SignalLevel::High);
    assert_eq!(qb, SignalLevel::Low);

    let (q, qb) = latch.update(SignalLevel::Low, SignalLevel::Low);
    assert_eq!(q, SignalLevel::High);
    assert_eq!(qb, SignalLevel::Low);

    let (q, qb) = latch.update(SignalLevel::Low, SignalLevel::High);
    assert_eq!(q, SignalLevel::Low);
    assert_eq!(qb, SignalLevel::High);
}

#[test]
fn test_dff() {
    let mut dff = DFlipFlop::new(SignalId(0), SignalId(1), SignalId(2), SignalId(3), 1);

    let (q, _) = dff.update(SignalLevel::High, SignalLevel::Low);
    assert_eq!(q, SignalLevel::Low);

    let (q, _) = dff.update(SignalLevel::High, SignalLevel::High);
    assert_eq!(q, SignalLevel::High);

    let (q, _) = dff.update(SignalLevel::Low, SignalLevel::High);
    assert_eq!(q, SignalLevel::High);

    let (q, _) = dff.update(SignalLevel::Low, SignalLevel::Low);
    assert_eq!(q, SignalLevel::High);

    let (q, _) = dff.update(SignalLevel::Low, SignalLevel::High);
    assert_eq!(q, SignalLevel::Low);
}

#[test]
fn gate_base_delays() {
    assert_eq!(GateType::Inv.base_delay(), 3_000);
    assert_eq!(GateType::Nand2.base_delay(), 5_000);
    assert_eq!(GateType::And2.base_delay(), 5_000);
    assert_eq!(GateType::Nand3.base_delay(), 7_000);
    assert_eq!(GateType::Nand4.base_delay(), 9_000);
    assert_eq!(GateType::Nor2.base_delay(), 6_000);
    assert_eq!(GateType::Or2.base_delay(), 6_000);
    assert_eq!(GateType::Nor3.base_delay(), 8_000);
    assert_eq!(GateType::Nor4.base_delay(), 10_000);
    assert_eq!(GateType::Xor2.base_delay(), 10_000);
    assert_eq!(GateType::Mux2.base_delay(), 10_000);
    assert_eq!(GateType::Latch.base_delay(), 6_000);
    assert_eq!(GateType::DFlipFlop.base_delay(), 15_000);
}

#[test]
fn gate_descriptors() {
    let inv = Inverter::new(SignalId(4), SignalId(5), 2);
    assert_eq!(inv.gate_type(), GateType::Inv);
    assert_eq!(inv.inputs(), &[SignalId(4)]);
    assert_eq!(inv.output(), SignalId(5));
    assert_eq!(inv.propagation_delay(), 4_000);

    let nand = Nand2::new(SignalId(1), SignalId(2), SignalId(3), 0);
    assert_eq!(nand.gate_type(), GateType::Nand2);
    assert_eq!(nand.inputs(), &[SignalId(1), SignalId(2)]);
    assert_eq!(nand.output(), SignalId(3));
    assert_eq!(nand.propagation_delay(), 5_000);

    let and = And2::new(SignalId(1), SignalId(2), SignalId(3), 1);
    assert_eq!(and.gate_type(), GateType::And2);
    assert_eq!(and.propagation_delay(), 8_500);
    let or = Or2::new(SignalId(1), SignalId(2), SignalId(3), 1);
    assert_eq!(or.gate_type(), GateType::Or2);
    assert_eq!(or.propagation_delay(), 9_500);
    let nand3 = Nand3::new(SignalId(1), SignalId(2), SignalId(3), SignalId(4), 1);
    assert_eq!(nand3.gate_type(), GateType::Nand3);
    assert_eq!(nand3.inputs().len(), 3);
    assert_eq!(nand3.propagation_delay(), 7_500);
    let nor3 = Nor3::new(SignalId(1), SignalId(2), SignalId(3), SignalId(4), 1);
    assert_eq!(nor3.gate_type(), GateType::Nor3);
    assert_eq!(nor3.propagation_delay(), 8_500);
    let nor = Nor2::new(SignalId(1), SignalId(2), SignalId(3), 1);
    assert_eq!(nor.gate_type(), GateType::Nor2);
    assert_eq!(nor.propagation_delay(), 6_500);
}

#[test]
fn three_input_and_composite_gates() {
    let h = SignalLevel::High;
    let l = SignalLevel::Low;
    let nand3 = Nand3::new(SignalId(0), SignalId(1), SignalId(2), SignalId(3), 1);
    assert_eq!(nand3.evaluate(&[h, h, h]), l);
    assert_eq!(nand3.evaluate(&[h, l, h]), h);
    let nor3 = Nor3::new(SignalId(0), SignalId(1), SignalId(2), SignalId(3), 1);
    assert_eq!(nor3.evaluate(&[l, l, l]), h);
    assert_eq!(nor3.evaluate(&[l, l, h]), l);
    let and = And2::new(SignalId(0), SignalId(1), SignalId(2), 1);
    assert_eq!(and.evaluate(&[h, h]), h);
    assert_eq!(and.evaluate(&[h, l]), l);
    assert_eq!(and.evaluate(&[h, SignalLevel::Z]), SignalLevel::X);
    let or = Or2::new(SignalId(0), SignalId(1), SignalId(2), 1);
    assert_eq!(or.evaluate(&[l, l]), l);
    assert_eq!(or.evaluate(&[l, h]), h);
    assert_eq!(or.evaluate(&[l, SignalLevel::X]), SignalLevel::X);
}

#[test]
fn inverter_of_inverter_is_identity() {
    let a = Inverter::new(SignalId(0), SignalId(1), 1);
    let b = Inverter::new(SignalId(1), SignalId(2), 1);
    for &x in [SignalLevel::Low, SignalLevel::High].iter() {
        assert_eq!(b.evaluate(&[a.evaluate(&[x])]), x);
    }
}

#[test]
fn nand_of_nand_identity() {
    let inner = Nand2::new(SignalId(0), SignalId(1), SignalId(2), 1);
    let outer = Nand2::new(SignalId(0), SignalId(2), SignalId(3), 1);
    let h = SignalLevel::High;
    let l = SignalLevel::Low;
    for &a in [l, h].iter() {
        for &b in [l, h].iter() {
            let out = outer.evaluate(&[a, inner.evaluate(&[a, b])]);
            let expected = if a == h && b == l { l } else { h };
            assert_eq!(out, expected);
        }
    }
}

#[test]
fn sr_latch_forbidden_input_holds() {
    let mut latch = SRLatch::new(SignalId(0), SignalId(1), SignalId(2), SignalId(3), 0);
    assert_eq!(latch.state(), SignalLevel::Low);
    latch.update(SignalLevel::High, SignalLevel::Low);
    let (q, qb) = latch.update(SignalLevel::High, SignalLevel::High);
    assert_eq!(q, SignalLevel::High);
    assert_eq!(qb, SignalLevel::Low);
    let (q, _) = latch.update(SignalLevel::X, SignalLevel::Z);
    assert_eq!(q, SignalLevel::High);
    assert_eq!(latch.state(), SignalLevel::High);
    assert_eq!(latch.delay, 12_000);
}

#[test]
fn dff_state_and_delay() {
    let mut dff = DFlipFlop::new(SignalId(0), SignalId(1), SignalId(2), SignalId(3), 2);
    assert_eq!(dff.delay, 16_000);
    assert_eq!(dff.state(), SignalLevel::Low);
    let (q, qb) = dff.update(SignalLevel::High, SignalLevel::High);
    assert_eq!(q, SignalLevel::High);
    assert_eq!(qb, SignalLevel::Low);
    assert_eq!(dff.state(), SignalLevel::High);
}
