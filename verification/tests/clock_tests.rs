use mcs4_emu::bus::clock::{ClockConfig, ClockEdge, TwoPhaseClockTwoPhaseClock};

#[test]
fn test_clock_config_frequency() {
    let config = ClockConfig::for_frequency(1_000_000); // 1 MHz
    assert_eq!(config.period, 1_000_000); // 1 us = 1,000,000 ps
}

#[test]
fn test_clock_tick() {
    let mut clock = TwoPhaseClockTwoPhaseClock::default_config();

    let edge = clock.tick(0);
    assert_eq!(edge, ClockEdge::Phi1Rising);
    assert!(clock.phi1_high());
    assert!(!clock.phi2_high());
}

#[test]
fn test_non_overlapping() {
    let mut clock = TwoPhaseClockTwoPhaseClock::default_config();
    let mut t = 0;

    for _ in 0..10 {
        let edge = clock.tick(t);
        t += 1;

        assert!(
            !(clock.phi1_high() && clock.phi2_high()),
            "Clock overlap detected at edge {:?}",
            edge
        );
    }
}

#[test]
fn clock_config_shares_of_the_period() {
    let config = ClockConfig::for_frequency(1_000_000);
    assert_eq!(config.phi1_width, 333_333);
    assert_eq!(config.phi2_width, 333_333);
    assert_eq!(config.phi1_to_phi2_delay, 166_666);
    assert_eq!(config.phi2_to_phi1_delay, 166_666);
    assert_eq!(config.rise_time, 50_000);
    assert_eq!(config.fall_time, 50_000);
    assert_eq!(ClockConfig::mcs4_typical().period, 1_351_351);
    assert_eq!(ClockConfig::mcs4_slow().period, 2_000_000);
}

#[test]
fn clock_default_config_is_the_data_sheet() {
    let config = ClockConfig::default();
    assert_eq!(config.period, 1_350_000);
    assert_eq!(config.phi1_width, 380_000);
    assert_eq!(config.phi2_width, 380_000);
    assert_eq!(config.phi1_to_phi2_delay, 400_000);
    assert_eq!(config.phi2_to_phi1_delay, 150_000);
}

#[test]
fn clock_edges_come_in_order() {
    let mut clock = TwoPhaseClockTwoPhaseClock::default_config();
    let mut edges = Vec::new();
    for t in 0..8u64 {
        edges.push(clock.tick(t));
    }
    assert_eq!(
        edges,
        vec![
            ClockEdge::Phi1Rising,
            ClockEdge::Phi1Falling,
            ClockEdge::Phi2Rising,
            ClockEdge::Phi2Falling,
            ClockEdge::Phi1Rising,
            ClockEdge::Phi1Falling,
            ClockEdge::Phi2Rising,
            ClockEdge::Phi2Falling,
        ]
    );
    assert_eq!(clock.cycle_count(), 2);
    assert_eq!(clock.phi1.history().len(), 4);
}

#[test]
fn clock_edge_predicates() {
    assert!(ClockEdge::Phi1Rising.is_rising());
    assert!(ClockEdge::Phi2Rising.is_rising());
    assert!(!ClockEdge::Phi1Falling.is_rising());
    assert!(ClockEdge::Phi2Falling.is_falling());
    assert!(ClockEdge::Phi1Falling.is_phi1());
    assert!(!ClockEdge::Phi1Falling.is_phi2());
    assert!(ClockEdge::Phi2Rising.is_phi2());
    assert!(!ClockEdge::NoEdge.is_rising());
    assert!(!ClockEdge::NoEdge.is_falling());
    assert!(!ClockEdge::NoEdge.is_phi1());
    assert!(!ClockEdge::NoEdge.is_phi2());
}

#[test]
fn clock_with_zero_widths_never_overlaps() {
    let config = ClockConfig {
        period: 0,
        phi1_width: 0,
        phi2_width: 0,
        phi1_to_phi2_delay: 0,
        phi2_to_phi1_delay: 0,
        rise_time: 0,
        fall_time: 0,
    };
    let mut clock = TwoPhaseClockTwoPhaseClock::new(config);
    for t in 0..6u64 {
        assert_eq!(clock.tick(t), ClockEdge::Phi1Rising);
        assert!(!(clock.phi1_high() && clock.phi2_high()));
    }
}

#[test]
fn clock_reset_comes_to_rest() {
    let mut clock = TwoPhaseClockTwoPhaseClock::default_config();
    for t in 0..5u64 {
        clock.tick(t);
    }
    clock.reset();
    assert_eq!(clock.cycle_count(), 0);
    assert!(!clock.phi1_high());
    assert!(!clock.phi2_high());
    assert_eq!(clock.tick(0), ClockEdge::Phi1Rising);
}
