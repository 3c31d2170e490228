use mcs4_emu::sim::timing::clock_spec;
use mcs4_emu::sim::timing::gate_delay;
use mcs4_emu::sim::timing::{MICROSECOND, MILLISECOND, NANOSECOND, PICOSECOND};

#[test]
fn test_time_constants() {
    assert_eq!(1000 * PICOSECOND, NANOSECOND);
    assert_eq!(1000 * NANOSECOND, MICROSECOND);
    assert_eq!(1000 * MICROSECOND, MILLISECOND);
}

#[test]
fn test_clock_period_range() {
    assert_eq!(clock_spec::TCY_MIN, 1_350_000);
    assert_eq!(clock_spec::TCY_MAX, 2_000_000);
}

#[test]
fn timing_test_fanout_delay() {
    let base = gate_delay::NAND2_BASE;
    assert_eq!(gate_delay::with_fanout(base, 0), base);
    assert_eq!(gate_delay::with_fanout(base, 1), base + 500);
    assert_eq!(gate_delay::with_fanout(base, 10), base + 5000);
}

#[test]
fn clock_spec_figures() {
    assert_eq!(clock_spec::TCY_TYP, 1_350 * NANOSECOND);
    assert_eq!(clock_spec::T0R, 50 * NANOSECOND);
    assert_eq!(clock_spec::T0F, 50 * NANOSECOND);
    assert_eq!(clock_spec::T0PW_MIN, 380 * NANOSECOND);
    assert_eq!(clock_spec::T0PW_MAX, 480 * NANOSECOND);
    assert_eq!(clock_spec::T0D1_MIN, 400 * NANOSECOND);
    assert_eq!(clock_spec::T0D1_MAX, 550 * NANOSECOND);
    assert_eq!(clock_spec::T0D2_MIN, 150 * NANOSECOND);
}

#[test]
fn gate_delay_figures() {
    assert_eq!(gate_delay::INV_BASE, 3 * NANOSECOND);
    assert_eq!(gate_delay::NAND2_BASE, 5 * NANOSECOND);
    assert_eq!(gate_delay::NOR2_BASE, 6 * NANOSECOND);
    assert_eq!(gate_delay::NAND3_BASE, 7 * NANOSECOND);
    assert_eq!(gate_delay::NOR3_BASE, 8 * NANOSECOND);
    assert_eq!(gate_delay::FANOUT_FACTOR, 500);
    assert_eq!(gate_delay::with_fanout(gate_delay::INV_BASE, 4), 5_000);
}
